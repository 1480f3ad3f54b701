use vstd::prelude::*;

verus! {

/// Whether `c` is an ASCII decimal digit.
pub open spec fn is_digit(c: char) -> bool {
    '0' <= c && c <= '9'
}

/// Whether `d` is a non-empty run of decimal digits.
pub open spec fn is_digit_run(d: Seq<char>) -> bool {
    d.len() > 0 && forall|i: int| 0 <= i < d.len() ==> #[trigger] is_digit(d[i])
}

/// The number that the decimal digits `d` denote.
pub open spec fn decimal_value(d: Seq<char>) -> nat
    decreases d.len(),
{
    if d.len() == 0 {
        0
    } else {
        decimal_value(d.drop_last()) * 10 + (d.last() as nat - '0' as nat) as nat
    }
}

/// The value of an unsigned decimal text: an optional `+` and then digits.
pub open spec fn unsigned_text_value(s: Seq<char>) -> Option<nat> {
    let d = if s.len() > 0 && s[0] == '+' { s.drop_first() } else { s };
    if is_digit_run(d) {
        Some(decimal_value(d))
    } else {
        None
    }
}

/// The value of a signed decimal text: an optional `+` or `-` and then digits.
pub open spec fn signed_text_value(s: Seq<char>) -> Option<int> {
    if s.len() > 0 && s[0] == '-' {
        if is_digit_run(s.drop_first()) {
            Some(-decimal_value(s.drop_first()))
        } else {
            None
        }
    } else {
        match unsigned_text_value(s) {
            Some(v) => Some(v as int),
            None => None,
        }
    }
}

/// A type that an attribute's text can be converted to.
pub trait FromAttr: Sized {
    /// The value that `text` denotes, if it denotes one.
    spec fn attr_value_spec(text: Seq<char>) -> Option<Self>;

    /// The message that explains why `text` does not convert.
    spec fn attr_error_spec(text: Seq<char>) -> Seq<char>;

    /// The name of the type, as reported in conversion errors.
    spec fn type_label_spec() -> Seq<char>;

    /// The type's name.
    fn type_label() -> (r: String)
        ensures
            r@ == Self::type_label_spec(),
    ;

    /// Converts `text`, or says why it does not convert.
    fn from_attr(text: &str) -> (r: Result<Self, String>)
        ensures
            match r {
                Ok(v) => Self::attr_value_spec(text@) == Some(v),
                Err(m) => Self::attr_value_spec(text@) is None && m@ == Self::attr_error_spec(text@),
            },
    ;
}

/// The message of the error that `<u8 as FromStr>::from_str` gives for `s`.
pub uninterp spec fn u8_parse_error_text(s: Seq<char>) -> Seq<char>;

/// Relies on `<u8 as FromStr>::from_str`: an optional `+` then decimal digits, an error on any other text or
/// on a value above `u8::MAX`; an error
/// comes back as its message.
#[verifier::external_body]
fn parse_u8_text(s: &str) -> (r: Result<u8, String>)
    ensures
        match r {
            Ok(v) => unsigned_text_value(s@) == Some(v as nat),
            Err(m) => m@ == u8_parse_error_text(s@) && match unsigned_text_value(s@) {
                Some(v) => v > u8::MAX,
                None => true,
            },
        },
{
    s.parse::<u8>().map_err(|e| e.to_string())
}

impl FromAttr for u8 {
    open spec fn attr_value_spec(text: Seq<char>) -> Option<u8> {
        match unsigned_text_value(text) {
            Some(v) => if v <= u8::MAX { Some(v as u8) } else { None },
            None => None,
        }
    }

    open spec fn attr_error_spec(text: Seq<char>) -> Seq<char> {
        u8_parse_error_text(text)
    }

    open spec fn type_label_spec() -> Seq<char> {
        seq!['u', '8']
    }

    fn type_label() -> (r: String) {
        let r = "u8".to_string();
        proof {
            reveal_strlit("u8");
            assert(r@ =~= seq!['u', '8']);
        }
        r
    }

    fn from_attr(text: &str) -> (r: Result<u8, String>) {
        parse_u8_text(text)
    }
}

/// The message of the error that `<u16 as FromStr>::from_str` gives for `s`.
pub uninterp spec fn u16_parse_error_text(s: Seq<char>) -> Seq<char>;

/// Relies on `<u16 as FromStr>::from_str`: an optional `+` then decimal digits, an error on any other text or
/// on a value above `u16::MAX`; an error
/// comes back as its message.
#[verifier::external_body]
fn parse_u16_text(s: &str) -> (r: Result<u16, String>)
    ensures
        match r {
            Ok(v) => unsigned_text_value(s@) == Some(v as nat),
            Err(m) => m@ == u16_parse_error_text(s@) && match unsigned_text_value(s@) {
                Some(v) => v > u16::MAX,
                None => true,
            },
        },
{
    s.parse::<u16>().map_err(|e| e.to_string())
}

impl FromAttr for u16 {
    open spec fn attr_value_spec(text: Seq<char>) -> Option<u16> {
        match unsigned_text_value(text) {
            Some(v) => if v <= u16::MAX { Some(v as u16) } else { None },
            None => None,
        }
    }

    open spec fn attr_error_spec(text: Seq<char>) -> Seq<char> {
        u16_parse_error_text(text)
    }

    open spec fn type_label_spec() -> Seq<char> {
        seq!['u', '1', '6']
    }

    fn type_label() -> (r: String) {
        let r = "u16".to_string();
        proof {
            reveal_strlit("u16");
            assert(r@ =~= seq!['u', '1', '6']);
        }
        r
    }

    fn from_attr(text: &str) -> (r: Result<u16, String>) {
        parse_u16_text(text)
    }
}

/// The message of the error that `<u32 as FromStr>::from_str` gives for `s`.
pub uninterp spec fn u32_parse_error_text(s: Seq<char>) -> Seq<char>;

/// Relies on `<u32 as FromStr>::from_str`: an optional `+` then decimal digits, an error on any other text or
/// on a value above `u32::MAX`; an error
/// comes back as its message.
#[verifier::external_body]
fn parse_u32_text(s: &str) -> (r: Result<u32, String>)
    ensures
        match r {
            Ok(v) => unsigned_text_value(s@) == Some(v as nat),
            Err(m) => m@ == u32_parse_error_text(s@) && match unsigned_text_value(s@) {
                Some(v) => v > u32::MAX,
                None => true,
            },
        },
{
    s.parse::<u32>().map_err(|e| e.to_string())
}

impl FromAttr for u32 {
    open spec fn attr_value_spec(text: Seq<char>) -> Option<u32> {
        match unsigned_text_value(text) {
            Some(v) => if v <= u32::MAX { Some(v as u32) } else { None },
            None => None,
        }
    }

    open spec fn attr_error_spec(text: Seq<char>) -> Seq<char> {
        u32_parse_error_text(text)
    }

    open spec fn type_label_spec() -> Seq<char> {
        seq!['u', '3', '2']
    }

    fn type_label() -> (r: String) {
        let r = "u32".to_string();
        proof {
            reveal_strlit("u32");
            assert(r@ =~= seq!['u', '3', '2']);
        }
        r
    }

    fn from_attr(text: &str) -> (r: Result<u32, String>) {
        parse_u32_text(text)
    }
}

/// The message of the error that `<u64 as FromStr>::from_str` gives for `s`.
pub uninterp spec fn u64_parse_error_text(s: Seq<char>) -> Seq<char>;

/// Relies on `<u64 as FromStr>::from_str`: an optional `+` then decimal digits, an error on any other text or
/// on a value above `u64::MAX`; an error
/// comes back as its message.
#[verifier::external_body]
fn parse_u64_text(s: &str) -> (r: Result<u64, String>)
    ensures
        match r {
            Ok(v) => unsigned_text_value(s@) == Some(v as nat),
            Err(m) => m@ == u64_parse_error_text(s@) && match unsigned_text_value(s@) {
                Some(v) => v > u64::MAX,
                None => true,
            },
        },
{
    s.parse::<u64>().map_err(|e| e.to_string())
}

impl FromAttr for u64 {
    open spec fn attr_value_spec(text: Seq<char>) -> Option<u64> {
        match unsigned_text_value(text) {
            Some(v) => if v <= u64::MAX { Some(v as u64) } else { None },
            None => None,
        }
    }

    open spec fn attr_error_spec(text: Seq<char>) -> Seq<char> {
        u64_parse_error_text(text)
    }

    open spec fn type_label_spec() -> Seq<char> {
        seq!['u', '6', '4']
    }

    fn type_label() -> (r: String) {
        let r = "u64".to_string();
        proof {
            reveal_strlit("u64");
            assert(r@ =~= seq!['u', '6', '4']);
        }
        r
    }

    fn from_attr(text: &str) -> (r: Result<u64, String>) {
        parse_u64_text(text)
    }
}

/// The message of the error that `<u128 as FromStr>::from_str` gives for `s`.
pub uninterp spec fn u128_parse_error_text(s: Seq<char>) -> Seq<char>;

/// Relies on `<u128 as FromStr>::from_str`: an optional `+` then decimal digits, an error on any other text or
/// on a value above `u128::MAX`; an error
/// comes back as its message.
#[verifier::external_body]
fn parse_u128_text(s: &str) -> (r: Result<u128, String>)
    ensures
        match r {
            Ok(v) => unsigned_text_value(s@) == Some(v as nat),
            Err(m) => m@ == u128_parse_error_text(s@) && match unsigned_text_value(s@) {
                Some(v) => v > u128::MAX,
                None => true,
            },
        },
{
    s.parse::<u128>().map_err(|e| e.to_string())
}

impl FromAttr for u128 {
    open spec fn attr_value_spec(text: Seq<char>) -> Option<u128> {
        match unsigned_text_value(text) {
            Some(v) => if v <= u128::MAX { Some(v as u128) } else { None },
            None => None,
        }
    }

    open spec fn attr_error_spec(text: Seq<char>) -> Seq<char> {
        u128_parse_error_text(text)
    }

    open spec fn type_label_spec() -> Seq<char> {
        seq!['u', '1', '2', '8']
    }

    fn type_label() -> (r: String) {
        let r = "u128".to_string();
        proof {
            reveal_strlit("u128");
            assert(r@ =~= seq!['u', '1', '2', '8']);
        }
        r
    }

    fn from_attr(text: &str) -> (r: Result<u128, String>) {
        parse_u128_text(text)
    }
}

/// The message of the error that `<usize as FromStr>::from_str` gives for `s`.
pub uninterp spec fn usize_parse_error_text(s: Seq<char>) -> Seq<char>;

/// Relies on `<usize as FromStr>::from_str`: an optional `+` then decimal digits, an error on any other text or
/// on a value above `usize::MAX`; an error
/// comes back as its message.
#[verifier::external_body]
fn parse_usize_text(s: &str) -> (r: Result<usize, String>)
    ensures
        match r {
            Ok(v) => unsigned_text_value(s@) == Some(v as nat),
            Err(m) => m@ == usize_parse_error_text(s@) && match unsigned_text_value(s@) {
                Some(v) => v > usize::MAX,
                None => true,
            },
        },
{
    s.parse::<usize>().map_err(|e| e.to_string())
}

impl FromAttr for usize {
    open spec fn attr_value_spec(text: Seq<char>) -> Option<usize> {
        match unsigned_text_value(text) {
            Some(v) => if v <= usize::MAX { Some(v as usize) } else { None },
            None => None,
        }
    }

    open spec fn attr_error_spec(text: Seq<char>) -> Seq<char> {
        usize_parse_error_text(text)
    }

    open spec fn type_label_spec() -> Seq<char> {
        seq!['u', 's', 'i', 'z', 'e']
    }

    fn type_label() -> (r: String) {
        let r = "usize".to_string();
        proof {
            reveal_strlit("usize");
            assert(r@ =~= seq!['u', 's', 'i', 'z', 'e']);
        }
        r
    }

    fn from_attr(text: &str) -> (r: Result<usize, String>) {
        parse_usize_text(text)
    }
}

/// The message of the error that `<i8 as FromStr>::from_str` gives for `s`.
pub uninterp spec fn i8_parse_error_text(s: Seq<char>) -> Seq<char>;

/// Relies on `<i8 as FromStr>::from_str`: an optional `+` or `-` then decimal digits, an error on any other text
/// or on a value outside the range of `i8`; an error
/// comes back as its message.
#[verifier::external_body]
fn parse_i8_text(s: &str) -> (r: Result<i8, String>)
    ensures
        match r {
            Ok(v) => signed_text_value(s@) == Some(v as int),
            Err(m) => m@ == i8_parse_error_text(s@) && match signed_text_value(s@) {
                Some(v) => v < i8::MIN || v > i8::MAX,
                None => true,
            },
        },
{
    s.parse::<i8>().map_err(|e| e.to_string())
}

impl FromAttr for i8 {
    open spec fn attr_value_spec(text: Seq<char>) -> Option<i8> {
        match signed_text_value(text) {
            Some(v) => if i8::MIN <= v <= i8::MAX { Some(v as i8) } else { None },
            None => None,
        }
    }

    open spec fn attr_error_spec(text: Seq<char>) -> Seq<char> {
        i8_parse_error_text(text)
    }

    open spec fn type_label_spec() -> Seq<char> {
        seq!['i', '8']
    }

    fn type_label() -> (r: String) {
        let r = "i8".to_string();
        proof {
            reveal_strlit("i8");
            assert(r@ =~= seq!['i', '8']);
        }
        r
    }

    fn from_attr(text: &str) -> (r: Result<i8, String>) {
        parse_i8_text(text)
    }
}

/// The message of the error that `<i16 as FromStr>::from_str` gives for `s`.
pub uninterp spec fn i16_parse_error_text(s: Seq<char>) -> Seq<char>;

/// Relies on `<i16 as FromStr>::from_str`: an optional `+` or `-` then decimal digits, an error on any other text
/// or on a value outside the range of `i16`; an error
/// comes back as its message.
#[verifier::external_body]
fn parse_i16_text(s: &str) -> (r: Result<i16, String>)
    ensures
        match r {
            Ok(v) => signed_text_value(s@) == Some(v as int),
            Err(m) => m@ == i16_parse_error_text(s@) && match signed_text_value(s@) {
                Some(v) => v < i16::MIN || v > i16::MAX,
                None => true,
            },
        },
{
    s.parse::<i16>().map_err(|e| e.to_string())
}

impl FromAttr for i16 {
    open spec fn attr_value_spec(text: Seq<char>) -> Option<i16> {
        match signed_text_value(text) {
            Some(v) => if i16::MIN <= v <= i16::MAX { Some(v as i16) } else { None },
            None => None,
        }
    }

    open spec fn attr_error_spec(text: Seq<char>) -> Seq<char> {
        i16_parse_error_text(text)
    }

    open spec fn type_label_spec() -> Seq<char> {
        seq!['i', '1', '6']
    }

    fn type_label() -> (r: String) {
        let r = "i16".to_string();
        proof {
            reveal_strlit("i16");
            assert(r@ =~= seq!['i', '1', '6']);
        }
        r
    }

    fn from_attr(text: &str) -> (r: Result<i16, String>) {
        parse_i16_text(text)
    }
}

/// The message of the error that `<i32 as FromStr>::from_str` gives for `s`.
pub uninterp spec fn i32_parse_error_text(s: Seq<char>) -> Seq<char>;

/// Relies on `<i32 as FromStr>::from_str`: an optional `+` or `-` then decimal digits, an error on any other text
/// or on a value outside the range of `i32`; an error
/// comes back as its message.
#[verifier::external_body]
fn parse_i32_text(s: &str) -> (r: Result<i32, String>)
    ensures
        match r {
            Ok(v) => signed_text_value(s@) == Some(v as int),
            Err(m) => m@ == i32_parse_error_text(s@) && match signed_text_value(s@) {
                Some(v) => v < i32::MIN || v > i32::MAX,
                None => true,
            },
        },
{
    s.parse::<i32>().map_err(|e| e.to_string())
}

impl FromAttr for i32 {
    open spec fn attr_value_spec(text: Seq<char>) -> Option<i32> {
        match signed_text_value(text) {
            Some(v) => if i32::MIN <= v <= i32::MAX { Some(v as i32) } else { None },
            None => None,
        }
    }

    open spec fn attr_error_spec(text: Seq<char>) -> Seq<char> {
        i32_parse_error_text(text)
    }

    open spec fn type_label_spec() -> Seq<char> {
        seq!['i', '3', '2']
    }

    fn type_label() -> (r: String) {
        let r = "i32".to_string();
        proof {
            reveal_strlit("i32");
            assert(r@ =~= seq!['i', '3', '2']);
        }
        r
    }

    fn from_attr(text: &str) -> (r: Result<i32, String>) {
        parse_i32_text(text)
    }
}

/// The message of the error that `<i64 as FromStr>::from_str` gives for `s`.
pub uninterp spec fn i64_parse_error_text(s: Seq<char>) -> Seq<char>;

/// Relies on `<i64 as FromStr>::from_str`: an optional `+` or `-` then decimal digits, an error on any other text
/// or on a value outside the range of `i64`; an error
/// comes back as its message.
#[verifier::external_body]
fn parse_i64_text(s: &str) -> (r: Result<i64, String>)
    ensures
        match r {
            Ok(v) => signed_text_value(s@) == Some(v as int),
            Err(m) => m@ == i64_parse_error_text(s@) && match signed_text_value(s@) {
                Some(v) => v < i64::MIN || v > i64::MAX,
                None => true,
            },
        },
{
    s.parse::<i64>().map_err(|e| e.to_string())
}

impl FromAttr for i64 {
    open spec fn attr_value_spec(text: Seq<char>) -> Option<i64> {
        match signed_text_value(text) {
            Some(v) => if i64::MIN <= v <= i64::MAX { Some(v as i64) } else { None },
            None => None,
        }
    }

    open spec fn attr_error_spec(text: Seq<char>) -> Seq<char> {
        i64_parse_error_text(text)
    }

    open spec fn type_label_spec() -> Seq<char> {
        seq!['i', '6', '4']
    }

    fn type_label() -> (r: String) {
        let r = "i64".to_string();
        proof {
            reveal_strlit("i64");
            assert(r@ =~= seq!['i', '6', '4']);
        }
        r
    }

    fn from_attr(text: &str) -> (r: Result<i64, String>) {
        parse_i64_text(text)
    }
}

/// The message of the error that `<i128 as FromStr>::from_str` gives for `s`.
pub uninterp spec fn i128_parse_error_text(s: Seq<char>) -> Seq<char>;

/// Relies on `<i128 as FromStr>::from_str`: an optional `+` or `-` then decimal digits, an error on any other text
/// or on a value outside the range of `i128`; an error
/// comes back as its message.
#[verifier::external_body]
fn parse_i128_text(s: &str) -> (r: Result<i128, String>)
    ensures
        match r {
            Ok(v) => signed_text_value(s@) == Some(v as int),
            Err(m) => m@ == i128_parse_error_text(s@) && match signed_text_value(s@) {
                Some(v) => v < i128::MIN || v > i128::MAX,
                None => true,
            },
        },
{
    s.parse::<i128>().map_err(|e| e.to_string())
}

impl FromAttr for i128 {
    open spec fn attr_value_spec(text: Seq<char>) -> Option<i128> {
        match signed_text_value(text) {
            Some(v) => if i128::MIN <= v <= i128::MAX { Some(v as i128) } else { None },
            None => None,
        }
    }

    open spec fn attr_error_spec(text: Seq<char>) -> Seq<char> {
        i128_parse_error_text(text)
    }

    open spec fn type_label_spec() -> Seq<char> {
        seq!['i', '1', '2', '8']
    }

    fn type_label() -> (r: String) {
        let r = "i128".to_string();
        proof {
            reveal_strlit("i128");
            assert(r@ =~= seq!['i', '1', '2', '8']);
        }
        r
    }

    fn from_attr(text: &str) -> (r: Result<i128, String>) {
        parse_i128_text(text)
    }
}

/// The message of the error that `<isize as FromStr>::from_str` gives for `s`.
pub uninterp spec fn isize_parse_error_text(s: Seq<char>) -> Seq<char>;

/// Relies on `<isize as FromStr>::from_str`: an optional `+` or `-` then decimal digits, an error on any other text
/// or on a value outside the range of `isize`; an error
/// comes back as its message.
#[verifier::external_body]
fn parse_isize_text(s: &str) -> (r: Result<isize, String>)
    ensures
        match r {
            Ok(v) => signed_text_value(s@) == Some(v as int),
            Err(m) => m@ == isize_parse_error_text(s@) && match signed_text_value(s@) {
                Some(v) => v < isize::MIN || v > isize::MAX,
                None => true,
            },
        },
{
    s.parse::<isize>().map_err(|e| e.to_string())
}

impl FromAttr for isize {
    open spec fn attr_value_spec(text: Seq<char>) -> Option<isize> {
        match signed_text_value(text) {
            Some(v) => if isize::MIN <= v <= isize::MAX { Some(v as isize) } else { None },
            None => None,
        }
    }

    open spec fn attr_error_spec(text: Seq<char>) -> Seq<char> {
        isize_parse_error_text(text)
    }

    open spec fn type_label_spec() -> Seq<char> {
        seq!['i', 's', 'i', 'z', 'e']
    }

    fn type_label() -> (r: String) {
        let r = "isize".to_string();
        proof {
            reveal_strlit("isize");
            assert(r@ =~= seq!['i', 's', 'i', 'z', 'e']);
        }
        r
    }

    fn from_attr(text: &str) -> (r: Result<isize, String>) {
        parse_isize_text(text)
    }
}

} // verus!
