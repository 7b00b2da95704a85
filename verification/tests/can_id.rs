use embedded_hal_io::can::{ExtendedId, Id, StandardId};

#[test]
fn standard_id_new() {
    assert_eq!(
        StandardId::new(StandardId::max().as_raw()),
        Some(StandardId::max())
    );
}

#[test]
fn standard_id_new_out_of_range() {
    assert_eq!(StandardId::new(StandardId::max().as_raw() + 1), None);
}

#[test]
fn extended_id_new() {
    assert_eq!(
        ExtendedId::new(ExtendedId::max().as_raw()),
        Some(ExtendedId::max())
    );
}

#[test]
fn extended_id_new_out_of_range() {
    assert_eq!(ExtendedId::new(ExtendedId::max().as_raw() + 1), None);
}

#[test]
fn get_standard_id_from_extended_id() {
    assert_eq!(
        Some(ExtendedId::max().standard_id()),
        StandardId::new((ExtendedId::max().as_raw() >> 18) as u16)
    );
}

#[test]
fn zero_ids_and_conversion() {
    assert_eq!(StandardId::zero().as_raw(), 0);
    assert_eq!(ExtendedId::zero().as_raw(), 0);
    let id: Id = StandardId::new(0x123).unwrap().into();
    assert_eq!(id, Id::Standard(StandardId::new(0x123).unwrap()));
    let id: Id = ExtendedId::new(0x1234_5678).unwrap().into();
    assert_eq!(id, Id::Extended(ExtendedId::new(0x1234_5678).unwrap()));
    assert_eq!(ExtendedId::new(0x1234_5678).unwrap().standard_id().as_raw(), (0x1234_5678u32 >> 18) as u16);
}
