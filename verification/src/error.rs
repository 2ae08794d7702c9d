use vstd::prelude::*;
use vstd::string::{to_string_from_display_ensures, StringExecFns};

verus! {

/// `std::io::Error` is carried through the library without being inspected.
#[verifier::external_type_specification]
#[verifier::external_body]
pub struct ExIoError(std::io::Error);

/// Every way an operation of the driver client can fail.
#[derive(Debug)]
pub enum Error {
    /// A file operation on the deployed driver binary failed.
    Io(std::io::Error),
    /// A Windows API call failed; `code` is what `GetLastError` reported.
    WinApi { context: &'static str, code: u32 },
    /// The driver answered in a way the protocol does not allow.
    DriverProtocol { context: &'static str },
    /// The driver service does not exist.
    NotInstalled,
    /// The driver service exists but its device cannot be opened.
    NotRunning,
    /// The device handle was already closed.
    DeviceClosed,
}

pub type Result<T> = std::result::Result<T, Error>;

impl From<std::io::Error> for Error {
    fn from(value: std::io::Error) -> (r: Self) {
        Error::Io(value)
    }
}

impl vstd::std_specs::convert::FromSpecImpl<std::io::Error> for Error {
    open spec fn obeys_from_spec() -> bool {
        true
    }

    open spec fn from_spec(v: std::io::Error) -> Error {
        Error::Io(v)
    }
}

/// The character of the decimal digit `d`.
pub open spec fn digit_char(d: nat) -> char {
    ('0' as nat + d) as char
}

/// The decimal notation of `n`, without leading zeros.
pub open spec fn decimal(n: nat) -> Seq<char>
    decreases n,
{
    if n < 10 {
        seq![digit_char(n)]
    } else {
        decimal(n / 10).push(digit_char(n % 10))
    }
}

/// Appends the decimal notation of `n` to `s`.
fn append_decimal(s: &mut String, n: u32)
    ensures
        final(s)@ == old(s)@ + decimal(n as nat),
    decreases n,
{
    if n >= 10 {
        append_decimal(s, n / 10);
    }
    let d: u32 = n % 10;
    proof {
        reveal_strlit("0");
        reveal_strlit("1");
        reveal_strlit("2");
        reveal_strlit("3");
        reveal_strlit("4");
        reveal_strlit("5");
        reveal_strlit("6");
        reveal_strlit("7");
        reveal_strlit("8");
        reveal_strlit("9");
    }
    let digit = if d == 0 {
        "0"
    } else if d == 1 {
        "1"
    } else if d == 2 {
        "2"
    } else if d == 3 {
        "3"
    } else if d == 4 {
        "4"
    } else if d == 5 {
        "5"
    } else if d == 6 {
        "6"
    } else if d == 7 {
        "7"
    } else if d == 8 {
        "8"
    } else {
        "9"
    };
    assert(digit@ == seq![digit_char(d as nat)]);
    s.append(digit);
}

/// Formats `n` in decimal.
pub fn decimal_string(n: u32) -> (r: String)
    ensures
        r@ == decimal(n as nat),
{
    let mut s = String::new();
    append_decimal(&mut s, n);
    assert(s@ =~= decimal(n as nat));
    s
}

impl Error {
    /// The human-readable description of the error, as its `Display` shows it.
    pub fn message(&self) -> (r: String)
        ensures
            self matches Error::Io(e) ==> exists|t: String|
                #[trigger] to_string_from_display_ensures::<std::io::Error>(&e, t) && r@ == "I/O error: "@ + t@,
            self matches Error::WinApi { context, code } ==> r@ == "Windows API error in "@ + context@
                + " (code "@ + decimal(code as nat) + ")"@,
            self matches Error::DriverProtocol { context } ==> r@ == "Driver protocol error: "@ + context@,
            self is NotInstalled ==> r@ == "Driver is not installed"@,
            self is NotRunning ==> r@ == "Driver is installed but not running"@,
            self is DeviceClosed ==> r@ == "Driver handle is closed"@,
    {
        match self {
            Error::Io(e) => {
                let text = e.to_string();
                let mut r = String::from_str("I/O error: ");
                r.append(text.as_str());
                r
            },
            Error::WinApi { context, code } => {
                let mut r = String::from_str("Windows API error in ");
                r.append(context);
                r.append(" (code ");
                let digits = decimal_string(*code);
                r.append(digits.as_str());
                r.append(")");
                r
            },
            Error::DriverProtocol { context } => {
                let mut r = String::from_str("Driver protocol error: ");
                r.append(context);
                r
            },
            Error::NotInstalled => String::from_str("Driver is not installed"),
            Error::NotRunning => String::from_str("Driver is installed but not running"),
            Error::DeviceClosed => String::from_str("Driver handle is closed"),
        }
    }
}

} // verus!
