use sdl_layer::event::joystick::guid::{Guid, InvalidLengthError, GUID_TEXT_LEN};
use sdl_layer::native::{NativeCall, GUID_TEXT_CAPACITY};

fn sample() -> [u8; 16] {
    [0x03, 0, 0, 0, 0x5e, 0x04, 0, 0, 0x8e, 0x02, 0, 0, 0x14, 0x01, 0, 0xff]
}

fn refused(text: &str) -> InvalidLengthError {
    match Guid::parse_call(text) {
        Ok(call) => panic!("accepted: {:?}", call),
        Err(error) => error,
    }
}

#[test]
fn identity_keeps_its_bytes() {
    let guid = Guid::from(sample());
    assert_eq!(guid.bytes(), sample());
    assert_eq!(Guid::from([0u8; 16]).bytes(), [0u8; 16]);
}

#[test]
fn identities_are_equal_byte_by_byte() {
    let mut other = sample();
    assert!(Guid::from(sample()) == Guid::from(other));
    other[15] = 0xfe;
    assert!(Guid::from(sample()) != Guid::from(other));
    other = sample();
    other[0] = 0x04;
    assert!(Guid::from(sample()) != Guid::from(other));
}

#[test]
fn format_call_gives_room_for_the_whole_text() {
    assert_eq!(GUID_TEXT_CAPACITY, 33);
    let guid = Guid::from(sample());
    assert_eq!(
        guid.format_call(),
        NativeCall::JoystickGetGuidString { data: sample(), capacity: 33 }
    );
}

#[test]
fn format_call_is_the_same_every_time() {
    let guid = Guid::from(sample());
    assert_eq!(guid.format_call(), guid.format_call());
    assert_eq!(guid.format_call(), Guid::from(sample()).format_call());
}

#[test]
fn text_of_sixteen_bytes_is_handed_to_the_parser() {
    assert_eq!(GUID_TEXT_LEN, 16);
    assert_eq!(
        Guid::parse_call("030000005e040000"),
        Ok(NativeCall::JoystickGetGuidFromString { text: String::from("030000005e040000") })
    );
}

#[test]
fn text_of_another_length_is_refused_with_its_length() {
    assert_eq!(refused("").actual_length(), 0);
    assert_eq!(refused("030000005e04000").actual_length(), 15);
    assert_eq!(refused("030000005e0400000").actual_length(), 17);
    assert_eq!(refused("030000005e0400008e02000014010000").actual_length(), 32);
}

#[test]
fn length_is_counted_in_bytes() {
    assert_eq!(refused("éééééééééééééééé").actual_length(), 32);
    assert!(Guid::parse_call("éééééééé").is_ok());
}

#[test]
fn message_names_the_actual_length() {
    assert_eq!(refused("").message(), "length must equals to 16 but actual length was 0");
    assert_eq!(refused("1234567").message(), "length must equals to 16 but actual length was 7");
    assert_eq!(
        refused("030000005e0400008e02000014010000").message(),
        "length must equals to 16 but actual length was 32"
    );
    let long = "x".repeat(1205);
    assert_eq!(refused(&long).message(), "length must equals to 16 but actual length was 1205");
}

#[test]
fn errors_compare_by_length() {
    assert_eq!(refused("abc"), refused("xyz"));
    assert_ne!(refused("abc"), refused("abcd"));
}
