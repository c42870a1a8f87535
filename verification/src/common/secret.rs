//! A string that is compared in constant time and wiped when it is dropped.

use core::fmt::Error as FmtError;
use subtle::ConstantTimeEq;
use vstd::prelude::*;
use vstd::std_specs::cmp::PartialEqSpec;
use vstd::std_specs::cmp::PartialEqSpecImpl;
use vstd::std_specs::convert::FromSpec;
use vstd::std_specs::convert::FromSpecImpl;
use zeroize::Zeroize;

verus! {

/// What a `Secret` shows of itself wherever it is printed.
pub const SECRET_DEBUG_OUTPUT: &'static str = "Secret { * }";

/// Represents a secret value.
///
/// - [`Secret::debug_string`] never exposes the secret: it always gives
///   "Secret { * }".
/// - `==` compares the two values in constant time.
/// - Dropping a `Secret` zeroes the memory of its value.
#[derive(Eq)]
pub struct Secret {
    value: String,
}

impl View for Secret {
    type V = Seq<char>;

    closed spec fn view(&self) -> Seq<char> {
        self.value@
    }
}

/// `subtle::ConstantTimeEq::ct_eq` on two byte slices, turned into a `bool`.
///
/// Slices of different lengths are unequal. For equal lengths the crate folds
/// the bytewise comparisons without a branch, so the answer is `true` exactly
/// when every byte agrees.
#[verifier::external_body]
fn ct_eq_bytes(a: &[u8], b: &[u8]) -> (r: bool)
    ensures
        r == (a@ == b@),
{
    a.ct_eq(b).into()
}

/// `zeroize::Zeroize::zeroize` on a `String`.
///
/// The crate overwrites the bytes of the string and its spare capacity with
/// zeros and then clears it, so the string is empty afterwards.
#[verifier::external_body]
fn zeroize_string(s: &mut String)
    ensures
        final(s)@ == Seq::<char>::empty(),
    opens_invariants none
    no_unwind
{
    s.zeroize();
}

/// Two strings are the same exactly when their UTF-8 encodings are.
pub proof fn lemma_utf8_bytes_decide_equality(a: Seq<char>, b: Seq<char>)
    ensures
        (vstd::utf8::encode_utf8(a) == vstd::utf8::encode_utf8(b)) <==> a == b,
{
    vstd::utf8::encode_utf8_decode_utf8(a);
    vstd::utf8::encode_utf8_decode_utf8(b);
}

impl Secret {
    /// Wraps `value` as it is.
    pub fn new(value: String) -> (r: Self)
        ensures
            r@ == value@,
    {
        Self { value }
    }

    /// The secret itself, for the one place that has to send it.
    pub fn value(&self) -> (r: &str)
        ensures
            r@ == self@,
    {
        self.value.as_str()
    }

    /// Overwrites the memory of the secret with zeros and leaves it empty.
    /// Dropping a `Secret` does the same.
    pub fn wipe(&mut self)
        ensures
            final(self)@ == Seq::<char>::empty(),
        opens_invariants none
        no_unwind
    {
        zeroize_string(&mut self.value);
    }

    /// The text that stands for a `Secret` in debug output.
    pub fn debug_string(&self) -> (r: String)
        ensures
            r@ == SECRET_DEBUG_OUTPUT@,
    {
        SECRET_DEBUG_OUTPUT.to_string()
    }
}

/// A secret made from a string with `from` or `into` holds that string.
pub proof fn lemma_from_keeps_value(value: String)
    ensures
        <Secret as FromSpec<String>>::from_spec(value)@ == value@,
{
}

/// Two secrets are equal exactly when they hold the same string, in whatever
/// way they were made.
pub proof fn lemma_equal_secrets_hold_equal_values(a: Secret, b: Secret)
    ensures
        PartialEqSpec::eq_spec(&a, &b) <==> a@ == b@,
        PartialEqSpec::eq_spec(&a, &a),
{
}

impl From<String> for Secret {
    fn from(value: String) -> (r: Self) {
        Self { value }
    }
}

impl FromSpecImpl<String> for Secret {
    open spec fn obeys_from_spec() -> bool {
        true
    }

    closed spec fn from_spec(value: String) -> Self {
        Secret { value }
    }
}

impl PartialEq for Secret {
    fn eq(&self, other: &Self) -> (r: bool) {
        proof {
            lemma_utf8_bytes_decide_equality(self.value@, other.value@);
        }
        ct_eq_bytes(self.value.as_str().as_bytes(), other.value.as_str().as_bytes())
    }
}

impl PartialEqSpecImpl for Secret {
    open spec fn obeys_eq_spec() -> bool {
        true
    }

    open spec fn eq_spec(&self, other: &Self) -> bool {
        self@ == other@
    }
}

#[verifier::external_type_specification]
#[verifier::external_body]
pub struct ExFormatter<'a>(core::fmt::Formatter<'a>);

#[verifier::external_type_specification]
#[verifier::external_body]
pub struct ExFmtError(FmtError);

/// `core::fmt::Formatter::write_str`: hands `text` to the formatter. Nothing
/// is claimed of what the formatter does with it.
#[verifier::external_body]
fn write_text(f: &mut core::fmt::Formatter<'_>, text: &str) -> (r: Result<(), FmtError>) {
    f.write_str(text)
}

impl core::fmt::Debug for Secret {
    /// Writes [`Secret::debug_string`], whatever the flags of the formatter.
    fn fmt(&self, f: &mut core::fmt::Formatter<'_>) -> (r: Result<(), FmtError>) {
        let text = self.debug_string();
        write_text(f, text.as_str())
    }
}

impl Clone for Secret {
    /// A second secret that holds the same value and is wiped on its own.
    fn clone(&self) -> (r: Self)
        ensures
            r@ == self@,
    {
        Secret { value: self.value.clone() }
    }
}

impl Drop for Secret {
    /// Wipes the secret before its memory is given back.
    fn drop(&mut self)
        opens_invariants none
        no_unwind
    {
        self.wipe();
    }
}

} // verus!
