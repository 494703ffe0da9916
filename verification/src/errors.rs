//! The error taxonomy of the Vulkan core.

use vstd::prelude::*;

verus! {

/// A failure surfaced by context or device construction.
///
/// `SystemError` stands for a Vulkan runtime that could not be loaded,
/// `VulkanError` carries the raw result code of a failed driver call,
/// `DeviceSelectionError` means no enumerated physical device (or the
/// requested one) qualifies, and `StringError` marks a name that holds
/// an embedded null byte and so cannot be handed to the driver.
#[derive(Debug, Clone, Copy, PartialEq, Eq, Structural)]
pub enum VulkanError {
    SystemError,
    VulkanError(i32),
    DeviceSelectionError,
    StringError,
}

/// The decimal digit character for a value below ten.
pub open spec fn spec_decimal_digit(d: int) -> char {
    if d == 0 {
        '0'
    } else if d == 1 {
        '1'
    } else if d == 2 {
        '2'
    } else if d == 3 {
        '3'
    } else if d == 4 {
        '4'
    } else if d == 5 {
        '5'
    } else if d == 6 {
        '6'
    } else if d == 7 {
        '7'
    } else if d == 8 {
        '8'
    } else {
        '9'
    }
}

/// The decimal rendering of a non-negative value, without leading
/// zeroes (a single zero for zero itself).
pub open spec fn spec_decimal(n: int) -> Seq<char>
    decreases n,
{
    if n < 10 {
        seq![spec_decimal_digit(n)]
    } else {
        spec_decimal(n / 10).push(spec_decimal_digit(n % 10))
    }
}

/// The decimal rendering of a signed value: a minus sign before the
/// magnitude when it is negative.
pub open spec fn spec_signed_decimal(v: int) -> Seq<char> {
    if v < 0 {
        seq!['-'] + spec_decimal(-v)
    } else {
        spec_decimal(v)
    }
}

/// The decimal digit character for a value below ten.
fn decimal_digit(d: u32) -> (r: &'static str)
    requires
        d < 10,
    ensures
        r@ == seq![spec_decimal_digit(d as int)],
{
    proof {
        reveal_strlit("0");
        reveal_strlit("1");
        reveal_strlit("2");
        reveal_strlit("3");
        reveal_strlit("4");
        reveal_strlit("5");
        reveal_strlit("6");
        reveal_strlit("7");
        reveal_strlit("8");
        reveal_strlit("9");
    }
    match d {
        0 => "0",
        1 => "1",
        2 => "2",
        3 => "3",
        4 => "4",
        5 => "5",
        6 => "6",
        7 => "7",
        8 => "8",
        _ => "9",
    }
}

/// The decimal rendering of a non-negative value.
fn decimal_string(n: u32) -> (r: String)
    ensures
        r@ == spec_decimal(n as int),
    decreases n,
{
    if n < 10 {
        decimal_digit(n).to_owned()
    } else {
        decimal_string(n / 10).concat(decimal_digit(n % 10))
    }
}

/// The decimal rendering of a signed value.
fn signed_decimal_string(v: i32) -> (r: String)
    ensures
        r@ == spec_signed_decimal(v as int),
{
    if v < 0 {
        proof {
            reveal_strlit("-");
        }
        let magnitude: u32 = (-(v as i64)) as u32;
        "-".to_owned().concat(decimal_string(magnitude).as_str())
    } else {
        decimal_string(v as u32)
    }
}

impl VulkanError {
    /// A human-readable rendering of the error kind; the rendering of a
    /// failed driver call surfaces the wrapped native result code.
    pub fn message(&self) -> (r: String)
        ensures
            self is SystemError ==> r@ == "There was an error loading from system vulkan libraries"@,
            self is StringError ==> r@
                == "There was an error converting a string to a null terminated CString"@,
            self is DeviceSelectionError ==> r@ == "Selected device not available"@,
            *self matches VulkanError::VulkanError(code) ==> r@
                == "Vulkan API call failed with result code "@ + spec_signed_decimal(code as int),
    {
        match self {
            VulkanError::SystemError => "There was an error loading from system vulkan libraries"
                .to_owned(),
            VulkanError::StringError =>
                "There was an error converting a string to a null terminated CString".to_owned(),
            VulkanError::DeviceSelectionError => "Selected device not available".to_owned(),
            VulkanError::VulkanError(code) => "Vulkan API call failed with result code ".to_owned()
                .concat(signed_decimal_string(*code).as_str()),
        }
    }

    /// The raw driver result code, where one was preserved.
    pub fn result_code(&self) -> (r: Option<i32>)
        ensures
            r == (match *self {
                VulkanError::VulkanError(code) => Some(code),
                _ => None::<i32>,
            }),
    {
        match self {
            VulkanError::VulkanError(code) => Some(*code),
            _ => None,
        }
    }
}

} // verus!
