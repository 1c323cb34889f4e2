use rest_client::item::InnerItem;
use rest_client::item::Item;
use rest_client::item::Timestamp;

#[test]
fn an_inner_item_holds_its_data() {
    assert_eq!(InnerItem::new(0).inner_data, 0);
    assert_eq!(InnerItem::new(42).inner_data, 42);
    assert_eq!(InnerItem::new(u64::MAX).inner_data, u64::MAX);
}

#[test]
fn a_new_item_has_an_empty_list() {
    let at = Timestamp { secs: 1_700_000_000, nanos: 5 };
    let item = Item::new(String::from("id-1"), at, String::from("Data"));
    assert_eq!(item.id, "id-1");
    assert_eq!(item.created_at, at);
    assert_eq!(item.data, "Data");
    assert!(item.list_of_items.is_empty());
}
