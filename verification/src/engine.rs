//! The UTS 46 engine of the `idna` crate, as far as the conversions use
//! it. Nothing in this file is proved: the contracts state what the
//! engine's documentation and source say.

use crate::my_config::{AsciiDenyList, DnsLength, Hyphens};
use idna::uts46;
use vstd::prelude::*;
use vstd::utf8::*;

verus! {

/// The outside type `idna::Errors`: the engine's verdict that an input had
/// errors. It carries no data.
#[verifier::external_type_specification]
#[verifier::external_body]
pub struct ExErrors(idna::Errors);

/// What `idna::uts46::Uts46::to_ascii` makes of a domain name under the three settings:
/// the ASCII form, or nothing where the name breaks one of them.
pub uninterp spec fn uts46_to_ascii(
    domain_name: Seq<u8>,
    deny_list: AsciiDenyList,
    hyphens: Hyphens,
    dns_length: DnsLength,
) -> Option<Seq<char>>;

/// What `idna::uts46::Uts46::to_unicode` makes of a domain name under the two settings:
/// the Unicode form, which is there even for a name with errors, and
/// whether the name was free of errors. How the text of a name with errors
/// differs from that of a clean one is the engine's concern.
pub uninterp spec fn uts46_to_unicode(
    domain_name: Seq<u8>,
    deny_list: AsciiDenyList,
    hyphens: Hyphens,
) -> (Seq<char>, bool);

/// Calls `idna::uts46::Uts46::to_ascii` on an engine with the compiled-in
/// data. The result is the one that `uts46_to_ascii` names, and a name
/// that was converted is ASCII.
#[verifier::external_body]
pub(crate) fn to_ascii(
    domain_name: &[u8],
    deny_list: AsciiDenyList,
    hyphens: Hyphens,
    dns_length: DnsLength,
) -> (converted: Result<String, idna::Errors>)
    ensures
        converted is Ok <==> uts46_to_ascii(domain_name@, deny_list, hyphens, dns_length) is Some,
        converted matches Ok(ascii) ==> uts46_to_ascii(
            domain_name@,
            deny_list,
            hyphens,
            dns_length,
        ) == Some(ascii@) && is_ascii_chars(ascii@),
{
    let adl = match deny_list {
        AsciiDenyList::Empty => uts46::AsciiDenyList::EMPTY,
        AsciiDenyList::Std3 => uts46::AsciiDenyList::STD3,
        AsciiDenyList::Url => uts46::AsciiDenyList::URL,
    };
    let h = match hyphens {
        Hyphens::Allow => uts46::Hyphens::Allow,
        Hyphens::CheckFirstLast => uts46::Hyphens::CheckFirstLast,
        Hyphens::Check => uts46::Hyphens::Check,
    };
    uts46::Uts46::new().to_ascii(domain_name, adl, h, match dns_length {
        DnsLength::Ignore => uts46::DnsLength::Ignore,
        DnsLength::VerifyAllowRootDot => uts46::DnsLength::VerifyAllowRootDot,
        DnsLength::Verify => uts46::DnsLength::Verify,
    }).map(|ascii| ascii.into_owned())
}

/// Calls `idna::uts46::Uts46::to_unicode` on an engine with the
/// compiled-in data. The result is the one that `uts46_to_unicode` names:
/// the text, and whether the verdict is clean. Nothing is claimed of where
/// the engine marks an error in the text, nor that it marks every one.
#[verifier::external_body]
pub(crate) fn to_unicode(
    domain_name: &[u8],
    deny_list: AsciiDenyList,
    hyphens: Hyphens,
) -> (converted: (String, Result<(), idna::Errors>))
    ensures
        converted.0@ == uts46_to_unicode(domain_name@, deny_list, hyphens).0,
        (converted.1 is Ok) == uts46_to_unicode(domain_name@, deny_list, hyphens).1,
{
    let adl = match deny_list {
        AsciiDenyList::Empty => uts46::AsciiDenyList::EMPTY,
        AsciiDenyList::Std3 => uts46::AsciiDenyList::STD3,
        AsciiDenyList::Url => uts46::AsciiDenyList::URL,
    };
    let h = match hyphens {
        Hyphens::Allow => uts46::Hyphens::Allow,
        Hyphens::CheckFirstLast => uts46::Hyphens::CheckFirstLast,
        Hyphens::Check => uts46::Hyphens::Check,
    };
    let (text, verdict) = uts46::Uts46::new().to_unicode(domain_name, adl, h);
    (text.into_owned(), verdict)
}

} // verus!
