use vstd::prelude::*;

verus! {

/// Whether `str::parse::<f64>` accepts this text.  The outcome is a function
/// of the characters alone.
pub uninterp spec fn parses_as_float(s: Seq<char>) -> bool;

/// The floating-point value named by this text, rendered with exactly three
/// digits after the decimal point.  The rendering is a function of the
/// characters alone.
pub uninterp spec fn fixed3_of(s: Seq<char>) -> Seq<char>;

/// Relies on `str::parse::<f64>`: whether a text parses as a float is
/// determined by its characters.  The parse target is the double-precision
/// type, pinned by inference against a `std::time` seconds value.
#[verifier::external_body]
fn float_parse_ok(s: &str) -> (r: bool)
    ensures
        r == parses_as_float(s@),
{
    let anchor = std::time::Duration::from_secs(1).as_secs_f64();
    s.parse().map(|v| anchor.max(v)).is_ok()
}

/// Relies on `str::parse::<f64>` and on the `{:.3}` formatting of the parsed
/// value: both are determined by the characters of the input alone.  The
/// rendering is a decimal numeral (possibly signed, or `inf`/`NaN`), so it
/// never holds an `=` character.  The parse target is the
/// double-precision type, pinned by inference against a `std::time` seconds
/// value.
#[verifier::external_body]
fn float_fixed3(s: &str) -> (r: String)
    requires
        parses_as_float(s@),
    ensures
        r@ == fixed3_of(s@),
        forall|i: int| 0 <= i < r@.len() ==> r@[i] != '=',
{
    let mut value = std::time::Duration::from_secs(1).as_secs_f64();
    match s.parse() {
        Ok(v) => {
            value = v;
            format!("{:.3}", value)
        },
        Err(_) => String::new(),
    }
}

/// A geographic coordinate, held as the numeric text the provider supplied
/// for it.  Every value of this type holds text that parses as a float.
#[derive(Debug)]
pub struct Coordinate {
    text: String,
}

impl View for Coordinate {
    type V = Seq<char>;

    closed spec fn view(&self) -> Seq<char> {
        self.text@
    }
}

impl Coordinate {
    #[verifier::type_invariant]
    spec fn wf(self) -> bool {
        parses_as_float(self.text@)
    }

    /// Accepts exactly the texts that name a floating-point value; a rejected
    /// text is handed back unchanged.
    pub fn new(text: String) -> (r: Result<Coordinate, String>)
        ensures
            parses_as_float(text@) ==> (r matches Ok(c) && c@ == text@),
            !parses_as_float(text@) ==> (r matches Err(t) && t == text),
    {
        if float_parse_ok(text.as_str()) {
            Ok(Coordinate { text })
        } else {
            Err(text)
        }
    }

    /// The text this coordinate was resolved from, unchanged.
    pub fn as_text(&self) -> (r: &str)
        ensures
            r@ == self@,
    {
        self.text.as_str()
    }

    /// The coordinate rendered with exactly three digits after the decimal
    /// point.
    pub fn to_fixed3(&self) -> (r: String)
        ensures
            r@ == fixed3_of(self@),
            forall|i: int| 0 <= i < r@.len() ==> r@[i] != '=',
    {
        proof {
            use_type_invariant(self);
        }
        float_fixed3(self.text.as_str())
    }
}

impl Clone for Coordinate {
    /// The clone holds the same text as the original.
    fn clone(&self) -> (r: Self)
        ensures
            r == *self,
    {
        proof {
            use_type_invariant(self);
        }
        Coordinate { text: self.text.clone() }
    }
}

} // verus!
