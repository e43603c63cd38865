//! The `strict-transport-security` header.

use vstd::prelude::*;
use vstd::string::StringExecFns;

use crate::wire::{header_name_ok, header_text_ok};

verus! {

/// 180 days, in seconds.
pub const STS_MAX_AGE: usize = 180 * 24 * 60 * 60;

/// How long browsers must reach the site over HTTPS only, and whether
/// subdomains are covered too.
#[derive(Debug, Copy, Clone, PartialEq, Eq, Hash, Structural)]
pub struct StrictTransportSecurity {
    pub include_sub_domains: bool,
    pub max_age: usize,
}

pub open spec fn digit_char(d: nat) -> char {
    seq!['0', '1', '2', '3', '4', '5', '6', '7', '8', '9'][(d % 10) as int]
}

/// The decimal digits of `n`, most significant first, without leading zeros.
pub open spec fn decimal_text(n: nat) -> Seq<char>
    decreases n,
{
    if n < 10 {
        seq![digit_char(n)]
    } else {
        decimal_text(n / 10).push(digit_char(n % 10))
    }
}

/// Relies on `usize::to_string`, which writes the number in decimal.
#[verifier::external_body]
fn decimal_string(n: usize) -> (r: String)
    ensures
        r@ == decimal_text(n as nat),
{
    n.to_string()
}

impl StrictTransportSecurity {
    /// `max-age=<seconds>`, then `;includeSubDomains` when that flag is set.
    pub open spec fn spec_value(self) -> Seq<char> {
        "max-age="@ + decimal_text(self.max_age as nat) + if self.include_sub_domains {
            ";includeSubDomains"@
        } else {
            Seq::empty()
        }
    }

    pub open spec fn spec_name(self) -> Seq<char> {
        "strict-transport-security"@
    }

    /// Sets the time in seconds during which the policy is enforced.
    pub fn max_age(self, max_age: usize) -> (r: Self)
        ensures
            r == (StrictTransportSecurity { max_age, ..self }),
    {
        StrictTransportSecurity { max_age, ..self }
    }

    /// Enables or disables the `includeSubDomains` directive.
    pub fn include_sub_domains(self, include_sub_domains: bool) -> (r: Self)
        ensures
            r == (StrictTransportSecurity { include_sub_domains, ..self }),
    {
        StrictTransportSecurity { include_sub_domains, ..self }
    }

    /// The header's name.
    pub fn name(&self) -> (r: &'static str)
        ensures
            r@ == self.spec_name(),
    {
        "strict-transport-security"
    }

    /// The header's value, assembled from the fields.
    pub fn raw_value(&self) -> (r: String)
        ensures
            r@ == self.spec_value(),
    {
        let mut out = String::new();
        out.append("max-age=");
        let digits = decimal_string(self.max_age);
        out.append(digits.as_str());
        if self.include_sub_domains {
            out.append(";includeSubDomains");
        }
        assert(out@ =~= self.spec_value());
        out
    }

    /// The header's value; the default policy's text is a constant.
    pub fn value(&self) -> (r: String)
        ensures
            r@ == self.spec_value(),
    {
        if self.include_sub_domains && self.max_age == STS_MAX_AGE {
            proof {
                lemma_default_sts_text();
            }
            String::from_str("max-age=15552000;includeSubDomains")
        } else {
            self.raw_value()
        }
    }
}

impl Default for StrictTransportSecurity {
    /// 180 days, subdomains included.
    fn default() -> (r: Self)
        ensures
            r == (StrictTransportSecurity { include_sub_domains: true, max_age: STS_MAX_AGE }),
    {
        StrictTransportSecurity { include_sub_domains: true, max_age: STS_MAX_AGE }
    }
}

/// Decimal text is made of digits.
pub proof fn lemma_decimal_digits(n: nat)
    ensures
        forall|i: int|
            0 <= i < decimal_text(n).len() ==> '0' <= #[trigger] decimal_text(n)[i] && decimal_text(n)[i]
                <= '9',
    decreases n,
{
    let digits = seq!['0', '1', '2', '3', '4', '5', '6', '7', '8', '9'];
    assert(forall|k: int| 0 <= k < 10 ==> '0' <= #[trigger] digits[k] && digits[k] <= '9');
    assert('0' <= digit_char(n) && digit_char(n) <= '9');
    if n >= 10 {
        lemma_decimal_digits(n / 10);
        assert(decimal_text(n) == decimal_text(n / 10).push(digit_char(n % 10)));
    }
}

impl StrictTransportSecurity {
    /// The header's name and value are well formed for `http`.
    pub proof fn lemma_well_formed(self)
        ensures
            header_name_ok(self.spec_name()),
            header_text_ok(self.spec_value()),
    {
        reveal(header_name_ok);
        reveal(header_text_ok);
        reveal_strlit("strict-transport-security");
        reveal_strlit("max-age=");
        reveal_strlit(";includeSubDomains");
        lemma_decimal_digits(self.max_age as nat);
    }
}

/// The default policy's header value is `max-age=15552000;includeSubDomains`.
pub proof fn lemma_default_sts_text()
    ensures
        (StrictTransportSecurity { include_sub_domains: true, max_age: STS_MAX_AGE }).spec_value()
            == "max-age=15552000;includeSubDomains"@,
{
    reveal_with_fuel(decimal_text, 9);
    reveal_strlit("max-age=");
    reveal_strlit(";includeSubDomains");
    reveal_strlit("max-age=15552000;includeSubDomains");
    assert(STS_MAX_AGE == 15552000);
    assert(decimal_text(15552000) =~= seq!['1', '5', '5', '5', '2', '0', '0', '0']);
    assert((StrictTransportSecurity { include_sub_domains: true, max_age: STS_MAX_AGE }).spec_value()
        =~= "max-age=15552000;includeSubDomains"@);
}

} // verus!
