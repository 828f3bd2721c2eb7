//! The conversions between the Unicode and the ASCII form of a domain
//! name: what the settings default to, what is handed to the engine, and
//! what becomes of its answer.

use crate::engine::{uts46_to_ascii, uts46_to_unicode};
use crate::error::IdnaError;
use crate::my_config::{
    resolve_ascii_deny_list, resolve_dns_length, resolve_hyphens, MyAsciiDenyList, MyDnsLength,
    MyHyphens,
};
use vstd::prelude::*;
use vstd::string::*;
use vstd::utf8::*;

verus! {

/// A conversion's result with the text taken as its characters.
pub open spec fn text_view(converted: Result<String, IdnaError>) -> Result<Seq<char>, IdnaError> {
    match converted {
        Ok(text) => Ok(text@),
        Err(e) => Err(e),
    }
}

/// What the conversion to ASCII returns for an answer of the engine: the
/// ASCII form, or a constraint violation where the engine gave none.
pub open spec fn ascii_outcome_spec(answer: Option<Seq<char>>) -> Result<Seq<char>, IdnaError> {
    match answer {
        Some(ascii) => Ok(ascii),
        None => Err(IdnaError::ConstraintViolation),
    }
}

/// What the conversion to Unicode returns for an answer of the engine: the
/// text where the name was free of errors or the conversion is lossy, else
/// a conversion error.
pub open spec fn unicode_outcome_spec(
    answer: (Seq<char>, bool),
    lossy: bool,
) -> Result<Seq<char>, IdnaError> {
    if answer.1 || lossy {
        Ok(answer.0)
    } else {
        Err(IdnaError::ConversionError)
    }
}

/// The result of converting `input` to ASCII under three tokens, each of
/// which may be left out.
pub open spec fn to_ascii_spec(
    input: Seq<u8>,
    adl: Option<&str>,
    h: Option<&str>,
    dl: Option<&str>,
) -> Result<Seq<char>, IdnaError> {
    match (resolve_ascii_deny_list(adl), resolve_hyphens(h), resolve_dns_length(dl)) {
        (Some(deny_list), Some(hyphens), Some(dns_length)) => ascii_outcome_spec(
            uts46_to_ascii(input, deny_list, hyphens, dns_length),
        ),
        _ => Err(IdnaError::InvalidConfiguration),
    }
}

/// The result of converting `input` to Unicode under two tokens, each of
/// which may be left out.
pub open spec fn to_unicode_spec(
    input: Seq<u8>,
    adl: Option<&str>,
    h: Option<&str>,
    lossy: bool,
) -> Result<Seq<char>, IdnaError> {
    match (resolve_ascii_deny_list(adl), resolve_hyphens(h)) {
        (Some(deny_list), Some(hyphens)) => unicode_outcome_spec(
            uts46_to_unicode(input, deny_list, hyphens),
            lossy,
        ),
        _ => Err(IdnaError::InvalidConfiguration),
    }
}

/// A token outside its vocabulary makes a conversion fail with
/// `InvalidConfiguration`, whatever the input and the other tokens are, and
/// nothing else makes it fail so.
pub proof fn lemma_invalid_configuration(
    input: Seq<u8>,
    adl: Option<&str>,
    h: Option<&str>,
    dl: Option<&str>,
    lossy: bool,
)
    ensures
        to_ascii_spec(input, adl, h, dl) == Err::<Seq<char>, IdnaError>(
            IdnaError::InvalidConfiguration,
        ) <==> (resolve_ascii_deny_list(adl) is None || resolve_hyphens(h) is None
            || resolve_dns_length(dl) is None),
        to_unicode_spec(input, adl, h, lossy) == Err::<Seq<char>, IdnaError>(
            IdnaError::InvalidConfiguration,
        ) <==> (resolve_ascii_deny_list(adl) is None || resolve_hyphens(h) is None),
{
}

/// The lossy conversion fails on no domain name: under tokens of their
/// vocabularies it returns the engine's text, whatever errors the name has.
pub proof fn lemma_lossy_keeps_the_text(input: Seq<u8>, adl: Option<&str>, h: Option<&str>)
    requires
        resolve_ascii_deny_list(adl) is Some,
        resolve_hyphens(h) is Some,
    ensures
        to_unicode_spec(input, adl, h, true) == Ok::<Seq<char>, IdnaError>(
            uts46_to_unicode(
                input,
                resolve_ascii_deny_list(adl)->Some_0,
                resolve_hyphens(h)->Some_0,
            ).0,
        ),
{
}

/// The strict and the lossy conversion to Unicode differ only on names
/// with errors: where the strict one succeeds the lossy one returns the
/// same text, where it fails for a token so does the lossy one, and where
/// it fails for the name the lossy one succeeds.
pub proof fn lemma_strict_and_lossy_agree(input: Seq<u8>, adl: Option<&str>, h: Option<&str>)
    ensures
        to_unicode_spec(input, adl, h, false) is Ok ==> to_unicode_spec(input, adl, h, true)
            == to_unicode_spec(input, adl, h, false),
        to_unicode_spec(input, adl, h, false) == Err::<Seq<char>, IdnaError>(
            IdnaError::InvalidConfiguration,
        ) <==> to_unicode_spec(input, adl, h, true) is Err,
        to_unicode_spec(input, adl, h, false) == Err::<Seq<char>, IdnaError>(
            IdnaError::ConversionError,
        ) ==> to_unicode_spec(input, adl, h, true) is Ok,
{
}

/// Turns the engine's answer to a conversion to ASCII into the
/// conversion's result.
pub fn ascii_outcome(answer: Result<String, idna::Errors>) -> (converted: Result<String, IdnaError>)
    ensures
        match answer {
            Ok(ascii) => converted == Ok::<String, IdnaError>(ascii),
            Err(_) => converted == Err::<String, IdnaError>(IdnaError::ConstraintViolation),
        },
{
    match answer {
        Ok(ascii) => Ok(ascii),
        Err(_) => Err(IdnaError::ConstraintViolation),
    }
}

/// Turns the engine's answer to a conversion to Unicode into the
/// conversion's result: a lossy conversion keeps the text whatever the
/// verdict, a strict one only under a clean verdict.
pub fn unicode_outcome(
    text: String,
    verdict: Result<(), idna::Errors>,
    lossy: bool,
) -> (converted: Result<String, IdnaError>)
    ensures
        converted == if verdict is Ok || lossy {
            Ok::<String, IdnaError>(text)
        } else {
            Err::<String, IdnaError>(IdnaError::ConversionError)
        },
{
    if verdict.is_ok() || lossy {
        Ok(text)
    } else {
        Err(IdnaError::ConversionError)
    }
}

/// Converts `input` to its Unicode form under settings that were read
/// already.
pub fn idna_to_unicode_internal(
    input: &str,
    adl: MyAsciiDenyList,
    h: MyHyphens,
    lossy: bool,
) -> (converted: Result<String, IdnaError>)
    ensures
        text_view(converted) == unicode_outcome_spec(
            uts46_to_unicode(input.spec_bytes(), adl@, h@),
            lossy,
        ),
        converted is Err <==> !lossy && !uts46_to_unicode(input.spec_bytes(), adl@, h@).1,
{
    let (text, verdict) = crate::engine::to_unicode(input.as_bytes(), *adl.inner(), *h.inner());
    unicode_outcome(text, verdict, lossy)
}

/// Converts `input` to its ASCII form, with Punycode labels where the
/// name needs them.
///
/// Each token may be left out: the deny list is then `url`, the hyphen
/// rule `allow` and the length rule `verify`.
pub fn idna_to_ascii(
    input: &str,
    adl: Option<&str>,
    h: Option<&str>,
    dl: Option<&str>,
) -> (converted: Result<String, IdnaError>)
    ensures
        text_view(converted) == to_ascii_spec(input.spec_bytes(), adl, h, dl),
        converted == Err::<String, IdnaError>(IdnaError::InvalidConfiguration) <==> (
            resolve_ascii_deny_list(adl) is None || resolve_hyphens(h) is None
                || resolve_dns_length(dl) is None),
        converted matches Ok(ascii) ==> is_ascii_chars(ascii@),
{
    let adl = match MyAsciiDenyList::resolve(adl) {
        Ok(setting) => setting,
        Err(e) => return Err(e),
    };
    let h = match MyHyphens::resolve(h) {
        Ok(setting) => setting,
        Err(e) => return Err(e),
    };
    let dl = match MyDnsLength::resolve(dl) {
        Ok(setting) => setting,
        Err(e) => return Err(e),
    };
    ascii_outcome(crate::engine::to_ascii(input.as_bytes(), *adl.inner(), *h.inner(), *dl.inner()))
}

/// Converts `input` to its Unicode form, and fails where the name has
/// errors.
///
/// Each token may be left out: the deny list is then `url` and the hyphen
/// rule `allow`.
pub fn idna_to_unicode(
    input: &str,
    adl: Option<&str>,
    h: Option<&str>,
) -> (converted: Result<String, IdnaError>)
    ensures
        text_view(converted) == to_unicode_spec(input.spec_bytes(), adl, h, false),
        converted == Err::<String, IdnaError>(IdnaError::InvalidConfiguration) <==> (
            resolve_ascii_deny_list(adl) is None || resolve_hyphens(h) is None),
{
    let adl = match MyAsciiDenyList::resolve(adl) {
        Ok(setting) => setting,
        Err(e) => return Err(e),
    };
    let h = match MyHyphens::resolve(h) {
        Ok(setting) => setting,
        Err(e) => return Err(e),
    };
    idna_to_unicode_internal(input, adl, h, false)
}

/// Converts `input` to its Unicode form, and keeps the text where the
/// name has errors: the result is then the engine's text as it stands,
/// with whatever marks the engine set in it.
///
/// Each token may be left out: the deny list is then `url` and the hyphen
/// rule `allow`. Only a token outside its vocabulary makes the conversion
/// fail.
pub fn idna_to_unicode_lossy(
    input: &str,
    adl: Option<&str>,
    h: Option<&str>,
) -> (converted: Result<String, IdnaError>)
    ensures
        text_view(converted) == to_unicode_spec(input.spec_bytes(), adl, h, true),
        converted is Err <==> (resolve_ascii_deny_list(adl) is None || resolve_hyphens(h) is None),
        converted matches Err(e) ==> e == IdnaError::InvalidConfiguration,
{
    let adl = match MyAsciiDenyList::resolve(adl) {
        Ok(setting) => setting,
        Err(e) => return Err(e),
    };
    let h = match MyHyphens::resolve(h) {
        Ok(setting) => setting,
        Err(e) => return Err(e),
    };
    idna_to_unicode_internal(input, adl, h, true)
}

} // verus!
