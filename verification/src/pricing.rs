//! The pricing of generated sales and returns rows, and the decimals it
//! is made of.
use tpcdsgen::types::{Decimal, Pricing};
use vstd::prelude::*;

verus! {

#[verifier::external_type_specification]
#[verifier::external_body]
pub struct ExDecimal(Decimal);

#[verifier::external_type_specification]
#[verifier::external_body]
pub struct ExPricing(Pricing);

/// The unscaled digits that `Decimal::get_number` returns for `d`.
pub uninterp spec fn spec_decimal_number(d: Decimal) -> i64;

/// Calls `Decimal::get_number`: the decimal's unscaled digits (the
/// generator keeps money and percentages at two decimal places, so 1.25 is
/// 125), a field of the decimal, named `spec_decimal_number`.
#[verifier::external_body]
pub(crate) fn decimal_number(d: &Decimal) -> (n: i64)
    ensures
        n == spec_decimal_number(*d),
{
    d.get_number()
}

/// The pricing values of a sales or returns row, each decimal as its
/// unscaled digits at two decimal places.
#[derive(Clone, Copy, Debug)]
pub struct PricingRecord {
    pub quantity: i32,
    pub wholesale_cost: i64,
    pub list_price: i64,
    pub sales_price: i64,
    pub ext_discount_amount: i64,
    pub ext_sales_price: i64,
    pub ext_wholesale_cost: i64,
    pub ext_list_price: i64,
    pub ext_tax: i64,
    pub coupon_amount: i64,
    pub ext_ship_cost: i64,
    pub net_paid: i64,
    pub net_paid_including_tax: i64,
    pub net_paid_including_shipping: i64,
    pub net_paid_including_shipping_and_tax: i64,
    pub net_profit: i64,
    pub refunded_cash: i64,
    pub reversed_charge: i64,
    pub store_credit: i64,
    pub fee: i64,
    pub net_loss: i64,
}

/// The value that `Pricing::get_quantity` returns for `p`.
pub uninterp spec fn spec_pricing_quantity(p: Pricing) -> i32;

/// Calls `Pricing::get_quantity`: a field of the pricing, named
/// `spec_pricing_quantity`.
#[verifier::external_body]
fn pricing_quantity(p: &Pricing) -> (v: i32)
    ensures
        v == spec_pricing_quantity(*p),
{
    p.get_quantity()
}

/// The decimal that `Pricing::get_wholesale_cost` returns for `p`.
pub uninterp spec fn spec_pricing_wholesale_cost(p: Pricing) -> Decimal;

/// Calls `Pricing::get_wholesale_cost`: a field of the pricing, named
/// `spec_pricing_wholesale_cost`.
#[verifier::external_body]
fn pricing_wholesale_cost(p: &Pricing) -> (v: Decimal)
    ensures
        v == spec_pricing_wholesale_cost(*p),
{
    p.get_wholesale_cost()
}

/// The decimal that `Pricing::get_list_price` returns for `p`.
pub uninterp spec fn spec_pricing_list_price(p: Pricing) -> Decimal;

/// Calls `Pricing::get_list_price`: a field of the pricing, named
/// `spec_pricing_list_price`.
#[verifier::external_body]
fn pricing_list_price(p: &Pricing) -> (v: Decimal)
    ensures
        v == spec_pricing_list_price(*p),
{
    p.get_list_price()
}

/// The decimal that `Pricing::get_sales_price` returns for `p`.
pub uninterp spec fn spec_pricing_sales_price(p: Pricing) -> Decimal;

/// Calls `Pricing::get_sales_price`: a field of the pricing, named
/// `spec_pricing_sales_price`.
#[verifier::external_body]
fn pricing_sales_price(p: &Pricing) -> (v: Decimal)
    ensures
        v == spec_pricing_sales_price(*p),
{
    p.get_sales_price()
}

/// The decimal that `Pricing::get_ext_discount_amount` returns for `p`.
pub uninterp spec fn spec_pricing_ext_discount_amount(p: Pricing) -> Decimal;

/// Calls `Pricing::get_ext_discount_amount`: a field of the pricing, named
/// `spec_pricing_ext_discount_amount`.
#[verifier::external_body]
fn pricing_ext_discount_amount(p: &Pricing) -> (v: Decimal)
    ensures
        v == spec_pricing_ext_discount_amount(*p),
{
    p.get_ext_discount_amount()
}

/// The decimal that `Pricing::get_ext_sales_price` returns for `p`.
pub uninterp spec fn spec_pricing_ext_sales_price(p: Pricing) -> Decimal;

/// Calls `Pricing::get_ext_sales_price`: a field of the pricing, named
/// `spec_pricing_ext_sales_price`.
#[verifier::external_body]
fn pricing_ext_sales_price(p: &Pricing) -> (v: Decimal)
    ensures
        v == spec_pricing_ext_sales_price(*p),
{
    p.get_ext_sales_price()
}

/// The decimal that `Pricing::get_ext_wholesale_cost` returns for `p`.
pub uninterp spec fn spec_pricing_ext_wholesale_cost(p: Pricing) -> Decimal;

/// Calls `Pricing::get_ext_wholesale_cost`: a field of the pricing, named
/// `spec_pricing_ext_wholesale_cost`.
#[verifier::external_body]
fn pricing_ext_wholesale_cost(p: &Pricing) -> (v: Decimal)
    ensures
        v == spec_pricing_ext_wholesale_cost(*p),
{
    p.get_ext_wholesale_cost()
}

/// The decimal that `Pricing::get_ext_list_price` returns for `p`.
pub uninterp spec fn spec_pricing_ext_list_price(p: Pricing) -> Decimal;

/// Calls `Pricing::get_ext_list_price`: a field of the pricing, named
/// `spec_pricing_ext_list_price`.
#[verifier::external_body]
fn pricing_ext_list_price(p: &Pricing) -> (v: Decimal)
    ensures
        v == spec_pricing_ext_list_price(*p),
{
    p.get_ext_list_price()
}

/// The decimal that `Pricing::get_ext_tax` returns for `p`.
pub uninterp spec fn spec_pricing_ext_tax(p: Pricing) -> Decimal;

/// Calls `Pricing::get_ext_tax`: a field of the pricing, named
/// `spec_pricing_ext_tax`.
#[verifier::external_body]
fn pricing_ext_tax(p: &Pricing) -> (v: Decimal)
    ensures
        v == spec_pricing_ext_tax(*p),
{
    p.get_ext_tax()
}

/// The decimal that `Pricing::get_coupon_amount` returns for `p`.
pub uninterp spec fn spec_pricing_coupon_amount(p: Pricing) -> Decimal;

/// Calls `Pricing::get_coupon_amount`: a field of the pricing, named
/// `spec_pricing_coupon_amount`.
#[verifier::external_body]
fn pricing_coupon_amount(p: &Pricing) -> (v: Decimal)
    ensures
        v == spec_pricing_coupon_amount(*p),
{
    p.get_coupon_amount()
}

/// The decimal that `Pricing::get_ext_ship_cost` returns for `p`.
pub uninterp spec fn spec_pricing_ext_ship_cost(p: Pricing) -> Decimal;

/// Calls `Pricing::get_ext_ship_cost`: a field of the pricing, named
/// `spec_pricing_ext_ship_cost`.
#[verifier::external_body]
fn pricing_ext_ship_cost(p: &Pricing) -> (v: Decimal)
    ensures
        v == spec_pricing_ext_ship_cost(*p),
{
    p.get_ext_ship_cost()
}

/// The decimal that `Pricing::get_net_paid` returns for `p`.
pub uninterp spec fn spec_pricing_net_paid(p: Pricing) -> Decimal;

/// Calls `Pricing::get_net_paid`: a field of the pricing, named
/// `spec_pricing_net_paid`.
#[verifier::external_body]
fn pricing_net_paid(p: &Pricing) -> (v: Decimal)
    ensures
        v == spec_pricing_net_paid(*p),
{
    p.get_net_paid()
}

/// The decimal that `Pricing::get_net_paid_including_tax` returns for `p`.
pub uninterp spec fn spec_pricing_net_paid_including_tax(p: Pricing) -> Decimal;

/// Calls `Pricing::get_net_paid_including_tax`: a field of the pricing, named
/// `spec_pricing_net_paid_including_tax`.
#[verifier::external_body]
fn pricing_net_paid_including_tax(p: &Pricing) -> (v: Decimal)
    ensures
        v == spec_pricing_net_paid_including_tax(*p),
{
    p.get_net_paid_including_tax()
}

/// The decimal that `Pricing::get_net_paid_including_shipping` returns for `p`.
pub uninterp spec fn spec_pricing_net_paid_including_shipping(p: Pricing) -> Decimal;

/// Calls `Pricing::get_net_paid_including_shipping`: a field of the pricing, named
/// `spec_pricing_net_paid_including_shipping`.
#[verifier::external_body]
fn pricing_net_paid_including_shipping(p: &Pricing) -> (v: Decimal)
    ensures
        v == spec_pricing_net_paid_including_shipping(*p),
{
    p.get_net_paid_including_shipping()
}

/// The decimal that `Pricing::get_net_paid_including_shipping_and_tax` returns for `p`.
pub uninterp spec fn spec_pricing_net_paid_including_shipping_and_tax(p: Pricing) -> Decimal;

/// Calls `Pricing::get_net_paid_including_shipping_and_tax`: a field of the pricing, named
/// `spec_pricing_net_paid_including_shipping_and_tax`.
#[verifier::external_body]
fn pricing_net_paid_including_shipping_and_tax(p: &Pricing) -> (v: Decimal)
    ensures
        v == spec_pricing_net_paid_including_shipping_and_tax(*p),
{
    p.get_net_paid_including_shipping_and_tax()
}

/// The decimal that `Pricing::get_net_profit` returns for `p`.
pub uninterp spec fn spec_pricing_net_profit(p: Pricing) -> Decimal;

/// Calls `Pricing::get_net_profit`: a field of the pricing, named
/// `spec_pricing_net_profit`.
#[verifier::external_body]
fn pricing_net_profit(p: &Pricing) -> (v: Decimal)
    ensures
        v == spec_pricing_net_profit(*p),
{
    p.get_net_profit()
}

/// The decimal that `Pricing::get_refunded_cash` returns for `p`.
pub uninterp spec fn spec_pricing_refunded_cash(p: Pricing) -> Decimal;

/// Calls `Pricing::get_refunded_cash`: a field of the pricing, named
/// `spec_pricing_refunded_cash`.
#[verifier::external_body]
fn pricing_refunded_cash(p: &Pricing) -> (v: Decimal)
    ensures
        v == spec_pricing_refunded_cash(*p),
{
    p.get_refunded_cash()
}

/// The decimal that `Pricing::get_reversed_charge` returns for `p`.
pub uninterp spec fn spec_pricing_reversed_charge(p: Pricing) -> Decimal;

/// Calls `Pricing::get_reversed_charge`: a field of the pricing, named
/// `spec_pricing_reversed_charge`.
#[verifier::external_body]
fn pricing_reversed_charge(p: &Pricing) -> (v: Decimal)
    ensures
        v == spec_pricing_reversed_charge(*p),
{
    p.get_reversed_charge()
}

/// The decimal that `Pricing::get_store_credit` returns for `p`.
pub uninterp spec fn spec_pricing_store_credit(p: Pricing) -> Decimal;

/// Calls `Pricing::get_store_credit`: a field of the pricing, named
/// `spec_pricing_store_credit`.
#[verifier::external_body]
fn pricing_store_credit(p: &Pricing) -> (v: Decimal)
    ensures
        v == spec_pricing_store_credit(*p),
{
    p.get_store_credit()
}

/// The decimal that `Pricing::get_fee` returns for `p`.
pub uninterp spec fn spec_pricing_fee(p: Pricing) -> Decimal;

/// Calls `Pricing::get_fee`: a field of the pricing, named
/// `spec_pricing_fee`.
#[verifier::external_body]
fn pricing_fee(p: &Pricing) -> (v: Decimal)
    ensures
        v == spec_pricing_fee(*p),
{
    p.get_fee()
}

/// The decimal that `Pricing::get_net_loss` returns for `p`.
pub uninterp spec fn spec_pricing_net_loss(p: Pricing) -> Decimal;

/// Calls `Pricing::get_net_loss`: a field of the pricing, named
/// `spec_pricing_net_loss`.
#[verifier::external_body]
fn pricing_net_loss(p: &Pricing) -> (v: Decimal)
    ensures
        v == spec_pricing_net_loss(*p),
{
    p.get_net_loss()
}

/// The pricing values of the generated pricing `p`, each decimal as its
/// unscaled digits.
pub open spec fn spec_pricing_record(p: Pricing) -> PricingRecord {
    PricingRecord {
        quantity: spec_pricing_quantity(p),
        wholesale_cost: spec_decimal_number(spec_pricing_wholesale_cost(p)),
        list_price: spec_decimal_number(spec_pricing_list_price(p)),
        sales_price: spec_decimal_number(spec_pricing_sales_price(p)),
        ext_discount_amount: spec_decimal_number(spec_pricing_ext_discount_amount(p)),
        ext_sales_price: spec_decimal_number(spec_pricing_ext_sales_price(p)),
        ext_wholesale_cost: spec_decimal_number(spec_pricing_ext_wholesale_cost(p)),
        ext_list_price: spec_decimal_number(spec_pricing_ext_list_price(p)),
        ext_tax: spec_decimal_number(spec_pricing_ext_tax(p)),
        coupon_amount: spec_decimal_number(spec_pricing_coupon_amount(p)),
        ext_ship_cost: spec_decimal_number(spec_pricing_ext_ship_cost(p)),
        net_paid: spec_decimal_number(spec_pricing_net_paid(p)),
        net_paid_including_tax: spec_decimal_number(spec_pricing_net_paid_including_tax(p)),
        net_paid_including_shipping: spec_decimal_number(spec_pricing_net_paid_including_shipping(p)),
        net_paid_including_shipping_and_tax: spec_decimal_number(spec_pricing_net_paid_including_shipping_and_tax(p)),
        net_profit: spec_decimal_number(spec_pricing_net_profit(p)),
        refunded_cash: spec_decimal_number(spec_pricing_refunded_cash(p)),
        reversed_charge: spec_decimal_number(spec_pricing_reversed_charge(p)),
        store_credit: spec_decimal_number(spec_pricing_store_credit(p)),
        fee: spec_decimal_number(spec_pricing_fee(p)),
        net_loss: spec_decimal_number(spec_pricing_net_loss(p)),
    }
}

/// Read the pricing values of a generated row.
pub fn pricing_record(p: &Pricing) -> (r: PricingRecord)
    ensures
        r == spec_pricing_record(*p),
{
    PricingRecord {
        quantity: pricing_quantity(p),
        wholesale_cost: decimal_number(&pricing_wholesale_cost(p)),
        list_price: decimal_number(&pricing_list_price(p)),
        sales_price: decimal_number(&pricing_sales_price(p)),
        ext_discount_amount: decimal_number(&pricing_ext_discount_amount(p)),
        ext_sales_price: decimal_number(&pricing_ext_sales_price(p)),
        ext_wholesale_cost: decimal_number(&pricing_ext_wholesale_cost(p)),
        ext_list_price: decimal_number(&pricing_ext_list_price(p)),
        ext_tax: decimal_number(&pricing_ext_tax(p)),
        coupon_amount: decimal_number(&pricing_coupon_amount(p)),
        ext_ship_cost: decimal_number(&pricing_ext_ship_cost(p)),
        net_paid: decimal_number(&pricing_net_paid(p)),
        net_paid_including_tax: decimal_number(&pricing_net_paid_including_tax(p)),
        net_paid_including_shipping: decimal_number(&pricing_net_paid_including_shipping(p)),
        net_paid_including_shipping_and_tax: decimal_number(&pricing_net_paid_including_shipping_and_tax(p)),
        net_profit: decimal_number(&pricing_net_profit(p)),
        refunded_cash: decimal_number(&pricing_refunded_cash(p)),
        reversed_charge: decimal_number(&pricing_reversed_charge(p)),
        store_credit: decimal_number(&pricing_store_credit(p)),
        fee: decimal_number(&pricing_fee(p)),
        net_loss: decimal_number(&pricing_net_loss(p)),
    }
}

} // verus!
