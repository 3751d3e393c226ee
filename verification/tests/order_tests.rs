use ticket_store::order::Order;

#[test]
fn order_fields_round_trip() {
    let order = Order::new(String::from("Rubber duck"), 3, 150);
    assert_eq!(order.product_name().as_str(), "Rubber duck");
    assert_eq!(*order.quantity(), 3);
    assert_eq!(*order.unit_price(), 150);
}

#[test]
fn order_total_is_quantity_times_unit_price() {
    let order = Order::new(String::from("Rubber duck"), 3, 150);
    assert_eq!(order.total(), 450);
}

#[test]
fn order_setters_update_each_field() {
    let mut order = Order::new(String::from("Rubber duck"), 3, 150);
    order.set_product_name(String::from("Rubber duck bundle"));
    order.set_quantity(2);
    order.set_unit_price(1000);
    assert_eq!(order.product_name().as_str(), "Rubber duck bundle");
    assert_eq!(*order.quantity(), 2);
    assert_eq!(*order.unit_price(), 1000);
    assert_eq!(order.total(), 2000);
}

#[test]
fn product_name_of_three_hundred_bytes_is_accepted() {
    let order = Order::new("n".repeat(300), 1, 1);
    assert_eq!(order.product_name().len(), 300);
    assert_eq!(order.total(), 1);
}
