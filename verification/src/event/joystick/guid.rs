//! The identity of a joystick.

use vstd::prelude::*;
use vstd::string::StringSliceAdditionalSpecFns;

use crate::native::{NativeCall, GUID_TEXT_CAPACITY};

verus! {

/// Bytes that a text must have to be parsed as an identity.
pub const GUID_TEXT_LEN: usize = 16;

/// The identity of a joystick device: sixteen bytes whose meaning is the
/// native layer's own. Two identities are equal when their bytes are.
#[derive(Debug, Clone, Copy)]
pub struct Guid([u8; 16]);

/// A text that was given as an identity has the wrong length.
#[derive(Debug, Clone, Copy, PartialEq, Eq, Structural)]
pub struct InvalidLengthError {
    actual_length: usize,
}

impl View for Guid {
    type V = Seq<u8>;

    closed spec fn view(&self) -> Seq<u8> {
        self.0@
    }
}

impl PartialEq for Guid {
    fn eq(&self, other: &Self) -> (same: bool) {
        let mut i: usize = 0;
        while i < 16
            invariant
                i <= 16,
                forall|j: int| 0 <= j < i ==> self.0[j] == other.0[j],
            decreases 16 - i,
        {
            if self.0[i] != other.0[i] {
                return false;
            }
            i += 1;
        }
        assert(self.0@ =~= other.0@);
        true
    }
}

impl Eq for Guid {}

impl vstd::std_specs::cmp::PartialEqSpecImpl for Guid {
    open spec fn obeys_eq_spec() -> bool {
        true
    }

    open spec fn eq_spec(&self, other: &Self) -> bool {
        self@ == other@
    }
}

impl vstd::std_specs::convert::FromSpecImpl<[u8; 16]> for Guid {
    open spec fn obeys_from_spec() -> bool {
        true
    }

    closed spec fn from_spec(data: [u8; 16]) -> Guid {
        Guid(data)
    }
}

impl From<[u8; 16]> for Guid {
    fn from(data: [u8; 16]) -> (guid: Guid) {
        Guid(data)
    }
}

impl Guid {
    /// The identity made from sixteen bytes holds those bytes.
    pub proof fn from_keeps_bytes(data: [u8; 16])
        ensures
            <Guid as vstd::std_specs::convert::FromSpec<[u8; 16]>>::from_spec(data)@ == data@,
    {
    }

    /// The sixteen bytes of the identity.
    pub fn bytes(&self) -> (data: [u8; 16])
        ensures
            data@ == self@,
    {
        self.0
    }

    /// The call that writes the identity as text. The buffer it asks for
    /// has room for the whole text.
    pub fn format_call(&self) -> (call: NativeCall)
        ensures
            call matches NativeCall::JoystickGetGuidString { data, capacity } && data@ == self@
                && capacity == GUID_TEXT_CAPACITY,
    {
        NativeCall::JoystickGetGuidString { data: self.0, capacity: GUID_TEXT_CAPACITY }
    }

    /// The call that parses `text` as an identity, for a text of
    /// `GUID_TEXT_LEN` bytes. A text of any other length is refused with
    /// its length.
    pub fn parse_call(text: &str) -> (call: Result<NativeCall, InvalidLengthError>)
        ensures
            call is Ok <==> text.spec_bytes().len() == GUID_TEXT_LEN,
            call matches Ok(parse) ==> parse matches NativeCall::JoystickGetGuidFromString {
                text: given,
            } && given@ == text@,
            call matches Err(error) ==> error.length() == text.spec_bytes().len(),
    {
        let length = text.as_bytes().len();
        if length != GUID_TEXT_LEN {
            return Err(InvalidLengthError { actual_length: length });
        }
        Ok(NativeCall::JoystickGetGuidFromString { text: text.to_owned() })
    }
}

/// The character of one decimal digit.
pub open spec fn digit(d: nat) -> char
    recommends
        d < 10,
{
    (48 + d) as char
}

/// The decimal digits of `n`, the most significant first.
pub open spec fn decimal(n: nat) -> Seq<char>
    decreases n,
{
    if n < 10 {
        seq![digit(n)]
    } else {
        decimal(n / 10) + seq![digit(n % 10)]
    }
}

fn digit_text(d: usize) -> (text: &'static str)
    requires
        d < 10,
    ensures
        text@ == seq![digit(d as nat)],
{
    proof {
        reveal_strlit("0");
        reveal_strlit("1");
        reveal_strlit("2");
        reveal_strlit("3");
        reveal_strlit("4");
        reveal_strlit("5");
        reveal_strlit("6");
        reveal_strlit("7");
        reveal_strlit("8");
        reveal_strlit("9");
    }
    match d {
        0 => "0",
        1 => "1",
        2 => "2",
        3 => "3",
        4 => "4",
        5 => "5",
        6 => "6",
        7 => "7",
        8 => "8",
        _ => "9",
    }
}

fn decimal_text(n: usize) -> (text: String)
    ensures
        text@ == decimal(n as nat),
{
    let mut text = String::from_str(digit_text(n % 10));
    let mut rest = n / 10;
    while rest > 0
        invariant
            decimal(n as nat) == (if rest > 0 {
                decimal(rest as nat)
            } else {
                Seq::<char>::empty()
            }) + text@,
        decreases rest,
    {
        let ghost before = text@;
        let ghost whole = rest;
        text = String::from_str(digit_text(rest % 10)).concat(text.as_str());
        rest = rest / 10;
        assert(decimal(whole as nat) + before =~= (if rest > 0 {
            decimal(rest as nat)
        } else {
            Seq::<char>::empty()
        }) + text@);
    }
    text
}

impl InvalidLengthError {
    /// The length that the text had.
    pub closed spec fn length(self) -> usize {
        self.actual_length
    }

    /// The words that tell what was wrong with the text.
    pub open spec fn message_text(self) -> Seq<char> {
        "length must equals to 16 but actual length was "@ + decimal(self.length() as nat)
    }

    /// The words that tell what was wrong with the text.
    pub fn message(&self) -> (text: String)
        ensures
            text@ == self.message_text(),
    {
        let digits = decimal_text(self.actual_length);
        String::from_str("length must equals to 16 but actual length was ").concat(digits.as_str())
    }

    /// The length that the text had.
    pub fn actual_length(&self) -> (length: usize)
        ensures
            length == self.length(),
    {
        self.actual_length
    }
}

} // verus!
