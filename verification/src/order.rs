//! A validated order: a product name, a quantity and a unit price, with a
//! derived total.  The constructor and the setters demand valid values, so
//! an order can never be observed in an invalid state.

use vstd::prelude::*;
use crate::ticket::byte_len;

verus! {

/// A product name is valid when it is non-empty and at most 300 bytes long.
pub open spec fn valid_product_name(n: Seq<char>) -> bool {
    0 < byte_len(n) <= 300
}

/// Mathematical image of an `Order`.
pub struct OrderView {
    pub product_name: Seq<char>,
    pub quantity: u32,
    pub unit_price: u32,
}

impl OrderView {
    /// Well-formedness of the order data: valid name, and a strictly
    /// positive quantity and unit price.
    pub open spec fn wf(self) -> bool {
        valid_product_name(self.product_name) && self.quantity > 0 && self.unit_price > 0
    }
}

/// An order of some quantity of one product at a unit price in cents.
pub struct Order {
    product_name: String,
    quantity: u32,
    unit_price: u32,
}

impl View for Order {
    type V = OrderView;

    closed spec fn view(&self) -> OrderView {
        OrderView {
            product_name: self.product_name@,
            quantity: self.quantity,
            unit_price: self.unit_price,
        }
    }
}

impl Order {
    pub fn new(product_name: String, quantity: u32, unit_price: u32) -> (r: Order)
        requires
            valid_product_name(product_name@),
            quantity > 0,
            unit_price > 0,
        ensures
            r@ == (OrderView { product_name: product_name@, quantity, unit_price }),
            r@.wf(),
    {
        Order { product_name, quantity, unit_price }
    }

    pub fn product_name(&self) -> (r: &String)
        ensures
            r@ == self@.product_name,
    {
        &self.product_name
    }

    pub fn quantity(&self) -> (r: &u32)
        ensures
            *r == self@.quantity,
    {
        &self.quantity
    }

    pub fn unit_price(&self) -> (r: &u32)
        ensures
            *r == self@.unit_price,
    {
        &self.unit_price
    }

    /// Total price of the order in cents.  The product must fit in `u32`;
    /// that bound is a machine limit, not a business rule.
    pub fn total(&self) -> (r: u32)
        requires
            self@.quantity * self@.unit_price <= u32::MAX,
        ensures
            r == self@.quantity * self@.unit_price,
    {
        self.quantity * self.unit_price
    }

    pub fn set_product_name(&mut self, new_name: String)
        requires
            valid_product_name(new_name@),
        ensures
            final(self)@ == (OrderView { product_name: new_name@, ..old(self)@ }),
    {
        self.product_name = new_name;
    }

    pub fn set_quantity(&mut self, new_quantity: u32)
        requires
            new_quantity > 0,
        ensures
            final(self)@ == (OrderView { quantity: new_quantity, ..old(self)@ }),
    {
        self.quantity = new_quantity;
    }

    pub fn set_unit_price(&mut self, new_unit_price: u32)
        requires
            new_unit_price > 0,
        ensures
            final(self)@ == (OrderView { unit_price: new_unit_price, ..old(self)@ }),
    {
        self.unit_price = new_unit_price;
    }
}

} // verus!
