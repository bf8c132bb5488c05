use vstd::prelude::*;

verus! {

/// The error code that signals success.
pub const GPG_ERR_NO_ERROR: u32 = 0;

/// An error code reported by the installed native library.
#[derive(Clone, Copy, Debug, PartialEq, Eq, Structural)]
pub struct Error(pub u32);

/// The decimal digit of `d`, for `d < 10`.
pub open spec fn digit_char(d: nat) -> char {
    (('0' as nat) + d) as char
}

/// The decimal notation of `n`, without leading zeros.
pub open spec fn decimal(n: nat) -> Seq<char>
    decreases n,
{
    if n < 10 {
        seq![digit_char(n)]
    } else {
        decimal(n / 10) + seq![digit_char(n % 10)]
    }
}

/// The text of an error: its code in decimal, then where it came from and
/// what it means, as the native library words them.
pub open spec fn describe_spec(code: u32, source: Seq<char>, message: Seq<char>) -> Seq<char> {
    "gpg returned with an error code of "@ + decimal(code as nat) + ": "@ + source + "/"@
        + message
}

fn digit_str(d: u32) -> (r: &'static str)
    requires
        d < 10,
    ensures
        r@ == seq![digit_char(d as nat)],
{
    proof {
        reveal_strlit("0");
        reveal_strlit("1");
        reveal_strlit("2");
        reveal_strlit("3");
        reveal_strlit("4");
        reveal_strlit("5");
        reveal_strlit("6");
        reveal_strlit("7");
        reveal_strlit("8");
        reveal_strlit("9");
    }
    let r = match d {
        0 => "0",
        1 => "1",
        2 => "2",
        3 => "3",
        4 => "4",
        5 => "5",
        6 => "6",
        7 => "7",
        8 => "8",
        _ => "9",
    };
    proof {
        assert(r@ =~= seq![digit_char(d as nat)]);
    }
    r
}

/// The decimal notation of `n`.
pub fn to_decimal(n: u32) -> (r: String)
    ensures
        r@ == decimal(n as nat),
    decreases n,
{
    if n < 10 {
        digit_str(n).to_owned()
    } else {
        to_decimal(n / 10).concat(digit_str(n % 10))
    }
}

impl Error {
    pub fn from_raw(raw: u32) -> (r: Error)
        ensures
            r.0 == raw,
    {
        Error(raw)
    }

    /// The raw code.
    pub fn code(&self) -> (r: u32)
        ensures
            r == self.0,
    {
        self.0
    }

    /// Whether the code signals a failure rather than success.
    pub fn is_error(&self) -> (r: bool)
        ensures
            r == (self.0 != GPG_ERR_NO_ERROR),
    {
        self.0 != GPG_ERR_NO_ERROR
    }

    /// The text of this error, given the native library's wording of where
    /// it came from (`source`) and of what it means (`message`).
    pub fn describe(&self, source: &str, message: &str) -> (r: String)
        ensures
            r@ == describe_spec(self.0, source@, message@),
    {
        "gpg returned with an error code of ".to_owned().concat(to_decimal(self.0).as_str()).concat(
            ": ",
        ).concat(source).concat("/").concat(message)
    }
}

} // verus!
