//! Address validation: which textual addresses are acceptable endpoints.
use vstd::prelude::*;
use crate::ipv4::{
    dotted_quad, lemma_dotted_quad_parses, lemma_ipv4_rejects_other_characters, parse_ipv4,
    parse_ipv4_spec, Ipv4Literal,
};
use crate::ipv6::{
    full_ipv6_text, is_ipv6_char, lemma_full_ipv6_text_parses,
    lemma_ipv6_rejects_other_characters, parse_ipv6, parse_ipv6_spec, Ipv6Literal,
};
use crate::text::{is_digit, to_chars};

verus! {

/// Whether the text `s` is an acceptable endpoint address of IP version
/// `version`: for 4, a dotted-quad literal that is global, shared, private or
/// loopback; for 6, an IPv6 literal that is global or loopback. No other
/// version has acceptable addresses.
pub open spec fn address_is_valid(s: Seq<char>, version: u8) -> bool {
    if version == 4 {
        match parse_ipv4_spec(s) {
            Some(ip) => ip.spec_is_acceptable(),
            None => false,
        }
    } else if version == 6 {
        match parse_ipv6_spec(s) {
            Some(ip) => ip.spec_is_acceptable(),
            None => false,
        }
    } else {
        false
    }
}

/// Checks whether `address` is an acceptable endpoint address of the given IP
/// version. Text that is no literal of that version is not acceptable.
pub fn is_valid_address(address: &str, version: &u8) -> (r: bool)
    ensures
        r == address_is_valid(address@, *version),
{
    if *version == 4 {
        let chars = to_chars(address);
        match parse_ipv4(&chars) {
            Some(ip) => ip.is_acceptable(),
            None => false,
        }
    } else if *version == 6 {
        let chars = to_chars(address);
        match parse_ipv6(&chars) {
            Some(ip) => ip.is_acceptable(),
            None => false,
        }
    } else {
        false
    }
}

/// Every IPv4 literal in the loopback, private, shared or global ranges is
/// valid for version 4, and text that is no IPv4 literal is not.
pub proof fn lemma_ipv4_validity(s: Seq<char>)
    ensures
        parse_ipv4_spec(s) matches Some(ip) && (ip.spec_is_loopback() || ip.spec_is_private()
            || ip.spec_is_shared() || ip.spec_is_global()) ==> address_is_valid(s, 4),
        parse_ipv4_spec(s) is None ==> !address_is_valid(s, 4),
{
}

/// Every IPv6 literal that is the loopback address or in the global range is
/// valid for version 6, and text that is no IPv6 literal is not.
pub proof fn lemma_ipv6_validity(s: Seq<char>)
    ensures
        parse_ipv6_spec(s) matches Some(ip) && (ip.spec_is_loopback() || ip.spec_is_global())
            ==> address_is_valid(s, 6),
        parse_ipv6_spec(s) is None ==> !address_is_valid(s, 6),
{
}

/// The usual text of every IPv4 address in the loopback, private, shared or
/// global ranges is valid for version 4.
pub proof fn lemma_acceptable_ipv4_text_is_valid(ip: Ipv4Literal)
    requires
        ip.spec_is_loopback() || ip.spec_is_private() || ip.spec_is_shared()
            || ip.spec_is_global(),
    ensures
        address_is_valid(dotted_quad(ip), 4),
{
    lemma_dotted_quad_parses(ip);
}

/// The full text of the loopback address and of every address in the global
/// range is valid for version 6.
pub proof fn lemma_acceptable_ipv6_text_is_valid(ip: Ipv6Literal)
    requires
        ip.spec_is_loopback() || ip.spec_is_global(),
    ensures
        address_is_valid(full_ipv6_text(ip), 6),
{
    lemma_full_ipv6_text_parses(ip);
}

/// Text that holds a character that cannot stand in a literal of the version
/// is not valid for it: for version 4 anything but a decimal digit and the dot,
/// for version 6 anything but a hexadecimal digit, the colon and the dot.
pub proof fn lemma_foreign_character_is_invalid(s: Seq<char>, at: int)
    requires
        0 <= at < s.len(),
    ensures
        !is_digit(s[at]) && s[at] != '.' ==> !address_is_valid(s, 4),
        !is_ipv6_char(s[at]) ==> !address_is_valid(s, 6),
{
    if !is_digit(s[at]) && s[at] != '.' {
        lemma_ipv4_rejects_other_characters(s, at);
    }
    if !is_ipv6_char(s[at]) {
        lemma_ipv6_rejects_other_characters(s, at);
    }
}

} // verus!
