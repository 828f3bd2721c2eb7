//! The three validation settings of a conversion, and the tokens that
//! name their values.

use crate::error::IdnaError;
use crate::text::str_eq;
use core::str::FromStr;
use vstd::prelude::*;

verus! {

/// Which ASCII characters a conversion refuses.
#[derive(Clone, Copy, PartialEq, Eq, Debug, Structural)]
pub enum AsciiDenyList {
    /// Nothing is refused.
    Empty,
    /// What the STD3 rules leave out: all but letters, digits and the hyphen.
    Std3,
    /// The forbidden domain code points of the WHATWG URL standard.
    Url,
}

/// Where in a label a hyphen may stand.
#[derive(Clone, Copy, PartialEq, Eq, Debug, Structural)]
pub enum Hyphens {
    /// Anywhere.
    Allow,
    /// Not in the first and not in the last position.
    CheckFirstLast,
    /// Not in the first, third, fourth or last position.
    Check,
}

/// Whether the DNS limits on the length of labels and names are enforced.
/// Only the conversion to ASCII looks at it.
#[derive(Clone, Copy, PartialEq, Eq, Debug, Structural)]
pub enum DnsLength {
    /// No limit is enforced.
    Ignore,
    /// The limits are enforced, and one trailing root dot is let through.
    VerifyAllowRootDot,
    /// The limits are enforced, and a trailing root dot is refused.
    Verify,
}

/// The deny list that a token names, if it names one. The match is exact:
/// another case, surrounding blanks or the empty token name nothing.
pub open spec fn parse_ascii_deny_list(token: Seq<char>) -> Option<AsciiDenyList> {
    if token == "empty"@ {
        Some(AsciiDenyList::Empty)
    } else if token == "std3"@ {
        Some(AsciiDenyList::Std3)
    } else if token == "url"@ {
        Some(AsciiDenyList::Url)
    } else {
        None
    }
}

/// The hyphen rule that a token names, if it names one, by exact match.
pub open spec fn parse_hyphens(token: Seq<char>) -> Option<Hyphens> {
    if token == "allow"@ {
        Some(Hyphens::Allow)
    } else if token == "check_first_last"@ {
        Some(Hyphens::CheckFirstLast)
    } else if token == "check"@ {
        Some(Hyphens::Check)
    } else {
        None
    }
}

/// The length rule that a token names, if it names one, by exact match.
pub open spec fn parse_dns_length(token: Seq<char>) -> Option<DnsLength> {
    if token == "ignore"@ {
        Some(DnsLength::Ignore)
    } else if token == "verify_allow_root_dot"@ {
        Some(DnsLength::VerifyAllowRootDot)
    } else if token == "verify"@ {
        Some(DnsLength::Verify)
    } else {
        None
    }
}

/// The deny list in force for a token that may be left out: the one it
/// names, or `Url` where there is no token.
pub open spec fn resolve_ascii_deny_list(token: Option<&str>) -> Option<AsciiDenyList> {
    match token {
        Some(t) => parse_ascii_deny_list(t@),
        None => Some(AsciiDenyList::Url),
    }
}

/// The hyphen rule in force for a token that may be left out: the one it
/// names, or `Allow` where there is no token.
pub open spec fn resolve_hyphens(token: Option<&str>) -> Option<Hyphens> {
    match token {
        Some(t) => parse_hyphens(t@),
        None => Some(Hyphens::Allow),
    }
}

/// The length rule in force for a token that may be left out: the one it
/// names, or `Verify` where there is no token.
pub open spec fn resolve_dns_length(token: Option<&str>) -> Option<DnsLength> {
    match token {
        Some(t) => parse_dns_length(t@),
        None => Some(DnsLength::Verify),
    }
}

/// The token that names a deny list.
pub open spec fn ascii_deny_list_token(adl: AsciiDenyList) -> Seq<char> {
    match adl {
        AsciiDenyList::Empty => "empty"@,
        AsciiDenyList::Std3 => "std3"@,
        AsciiDenyList::Url => "url"@,
    }
}

/// The token that names a hyphen rule.
pub open spec fn hyphens_token(h: Hyphens) -> Seq<char> {
    match h {
        Hyphens::Allow => "allow"@,
        Hyphens::CheckFirstLast => "check_first_last"@,
        Hyphens::Check => "check"@,
    }
}

/// The token that names a length rule.
pub open spec fn dns_length_token(dl: DnsLength) -> Seq<char> {
    match dl {
        DnsLength::Ignore => "ignore"@,
        DnsLength::VerifyAllowRootDot => "verify_allow_root_dot"@,
        DnsLength::Verify => "verify"@,
    }
}

/// Tokens and deny lists stay in step: a token is read as a deny list
/// exactly when it is the token of that deny list. So every deny list can
/// be named, and by one token only.
pub proof fn lemma_ascii_deny_list_token(adl: AsciiDenyList, token: Seq<char>)
    ensures
        parse_ascii_deny_list(token) == Some(adl) <==> token == ascii_deny_list_token(adl),
{
    reveal_strlit("empty");
    reveal_strlit("std3");
    reveal_strlit("url");
    assert("empty"@.len() == 5 && "std3"@.len() == 4 && "url"@.len() == 3);
}

/// Tokens and hyphen rules stay in step: a token is read as a hyphen rule
/// exactly when it is the token of that rule.
pub proof fn lemma_hyphens_token(h: Hyphens, token: Seq<char>)
    ensures
        parse_hyphens(token) == Some(h) <==> token == hyphens_token(h),
{
    reveal_strlit("allow");
    reveal_strlit("check_first_last");
    reveal_strlit("check");
    assert("allow"@.len() == 5 && "check_first_last"@.len() == 16 && "check"@.len() == 5);
    assert("allow"@[0] == 'a' && "check"@[0] == 'c');
}

/// Tokens and length rules stay in step: a token is read as a length rule
/// exactly when it is the token of that rule.
pub proof fn lemma_dns_length_token(dl: DnsLength, token: Seq<char>)
    ensures
        parse_dns_length(token) == Some(dl) <==> token == dns_length_token(dl),
{
    reveal_strlit("ignore");
    reveal_strlit("verify_allow_root_dot");
    reveal_strlit("verify");
    assert("ignore"@.len() == 6 && "verify_allow_root_dot"@.len() == 21 && "verify"@.len() == 6);
    assert("ignore"@[0] == 'i' && "verify"@[0] == 'v');
}

/// A deny-list setting that was read from a token.
#[derive(Clone, Copy, PartialEq, Eq, Debug, Structural)]
pub struct MyAsciiDenyList(AsciiDenyList);

impl View for MyAsciiDenyList {
    type V = AsciiDenyList;

    closed spec fn view(&self) -> AsciiDenyList {
        self.0
    }
}

impl MyAsciiDenyList {
    /// The setting that holds `adl`.
    pub fn new(adl: AsciiDenyList) -> (setting: Self)
        ensures
            setting@ == adl,
    {
        Self(adl)
    }

    /// The deny list that the setting holds.
    pub fn inner(&self) -> (adl: &AsciiDenyList)
        ensures
            *adl == self@,
    {
        &self.0
    }

    /// Reads a setting from a token that may be left out; without a token
    /// the setting is the default.
    pub fn resolve(token: Option<&str>) -> (resolved: Result<Self, IdnaError>)
        ensures
            match resolve_ascii_deny_list(token) {
                Some(adl) => resolved matches Ok(setting) && setting@ == adl,
                None => resolved == Err::<Self, IdnaError>(IdnaError::InvalidConfiguration),
            },
    {
        match token {
            Some(t) => Self::from_str(t),
            None => Ok(Self::default()),
        }
    }
}

impl FromStr for MyAsciiDenyList {
    type Err = IdnaError;

    /// Reads a setting from its token: `empty`, `std3` or `url`.
    fn from_str(input: &str) -> (parsed: Result<Self, IdnaError>)
        ensures
            match parse_ascii_deny_list(input@) {
                Some(adl) => parsed matches Ok(setting) && setting@ == adl,
                None => parsed == Err::<Self, IdnaError>(IdnaError::InvalidConfiguration),
            },
    {
        if str_eq(input, "empty") {
            Ok(Self(AsciiDenyList::Empty))
        } else if str_eq(input, "std3") {
            Ok(Self(AsciiDenyList::Std3))
        } else if str_eq(input, "url") {
            Ok(Self(AsciiDenyList::Url))
        } else {
            Err(IdnaError::InvalidConfiguration)
        }
    }
}

impl Default for MyAsciiDenyList {
    /// The deny list of the WHATWG URL standard.
    fn default() -> (setting: Self)
        ensures
            setting@ == AsciiDenyList::Url,
    {
        Self(AsciiDenyList::Url)
    }
}

/// A hyphen setting that was read from a token.
#[derive(Clone, Copy, PartialEq, Eq, Debug, Structural)]
pub struct MyHyphens(Hyphens);

impl View for MyHyphens {
    type V = Hyphens;

    closed spec fn view(&self) -> Hyphens {
        self.0
    }
}

impl MyHyphens {
    /// The setting that holds `h`.
    pub fn new(h: Hyphens) -> (setting: Self)
        ensures
            setting@ == h,
    {
        Self(h)
    }

    /// The hyphen rule that the setting holds.
    pub fn inner(&self) -> (h: &Hyphens)
        ensures
            *h == self@,
    {
        &self.0
    }

    /// Reads a setting from a token that may be left out; without a token
    /// the setting is the default.
    pub fn resolve(token: Option<&str>) -> (resolved: Result<Self, IdnaError>)
        ensures
            match resolve_hyphens(token) {
                Some(h) => resolved matches Ok(setting) && setting@ == h,
                None => resolved == Err::<Self, IdnaError>(IdnaError::InvalidConfiguration),
            },
    {
        match token {
            Some(t) => Self::from_str(t),
            None => Ok(Self::default()),
        }
    }
}

impl FromStr for MyHyphens {
    type Err = IdnaError;

    /// Reads a setting from its token: `allow`, `check_first_last` or
    /// `check`.
    fn from_str(input: &str) -> (parsed: Result<Self, IdnaError>)
        ensures
            match parse_hyphens(input@) {
                Some(h) => parsed matches Ok(setting) && setting@ == h,
                None => parsed == Err::<Self, IdnaError>(IdnaError::InvalidConfiguration),
            },
    {
        if str_eq(input, "allow") {
            Ok(Self(Hyphens::Allow))
        } else if str_eq(input, "check_first_last") {
            Ok(Self(Hyphens::CheckFirstLast))
        } else if str_eq(input, "check") {
            Ok(Self(Hyphens::Check))
        } else {
            Err(IdnaError::InvalidConfiguration)
        }
    }
}

impl Default for MyHyphens {
    /// Hyphens are allowed anywhere.
    fn default() -> (setting: Self)
        ensures
            setting@ == Hyphens::Allow,
    {
        Self(Hyphens::Allow)
    }
}

/// A length setting that was read from a token.
#[derive(Clone, Copy, PartialEq, Eq, Debug, Structural)]
pub struct MyDnsLength(DnsLength);

impl View for MyDnsLength {
    type V = DnsLength;

    closed spec fn view(&self) -> DnsLength {
        self.0
    }
}

impl MyDnsLength {
    /// The setting that holds `dl`.
    pub fn new(dl: DnsLength) -> (setting: Self)
        ensures
            setting@ == dl,
    {
        Self(dl)
    }

    /// The length rule that the setting holds.
    pub fn inner(&self) -> (dl: &DnsLength)
        ensures
            *dl == self@,
    {
        &self.0
    }

    /// Reads a setting from a token that may be left out; without a token
    /// the setting is the default.
    pub fn resolve(token: Option<&str>) -> (resolved: Result<Self, IdnaError>)
        ensures
            match resolve_dns_length(token) {
                Some(dl) => resolved matches Ok(setting) && setting@ == dl,
                None => resolved == Err::<Self, IdnaError>(IdnaError::InvalidConfiguration),
            },
    {
        match token {
            Some(t) => Self::from_str(t),
            None => Ok(Self::default()),
        }
    }
}

impl FromStr for MyDnsLength {
    type Err = IdnaError;

    /// Reads a setting from its token: `ignore`, `verify_allow_root_dot` or
    /// `verify`.
    fn from_str(input: &str) -> (parsed: Result<Self, IdnaError>)
        ensures
            match parse_dns_length(input@) {
                Some(dl) => parsed matches Ok(setting) && setting@ == dl,
                None => parsed == Err::<Self, IdnaError>(IdnaError::InvalidConfiguration),
            },
    {
        if str_eq(input, "ignore") {
            Ok(Self(DnsLength::Ignore))
        } else if str_eq(input, "verify_allow_root_dot") {
            Ok(Self(DnsLength::VerifyAllowRootDot))
        } else if str_eq(input, "verify") {
            Ok(Self(DnsLength::Verify))
        } else {
            Err(IdnaError::InvalidConfiguration)
        }
    }
}

impl Default for MyDnsLength {
    /// The limits are enforced strictly.
    fn default() -> (setting: Self)
        ensures
            setting@ == DnsLength::Verify,
    {
        Self(DnsLength::Verify)
    }
}

} // verus!
