//! The generated protocol sources: the protocol enumeration with its
//! decoding and numbering, for protocols numbered by category offsets or
//! taken from the compiled protocol descriptors.

use vstd::prelude::*;
use crate::text::{decimal, join, push_decimal, seq_join, views};

verus! {

pub const PROTOCOL_VARIANT_0: &'static str = "    ";
pub const PROTOCOL_VARIANT_1: &'static str = "(";
pub const PROTOCOL_VARIANT_2: &'static str = "),";
pub const PROTOCOL_DECODE_0: &'static str = "            ";
pub const PROTOCOL_DECODE_1: &'static str = " => Self::";
pub const PROTOCOL_DECODE_2: &'static str = "(";
pub const PROTOCOL_DECODE_3: &'static str = "::decode(data)?),";
pub const PROTOCOL_ID_IMPL_0: &'static str = "impl crate::protocol::Protocolic for ";
pub const PROTOCOL_ID_IMPL_1: &'static str = " {\n    fn protocol_id(&self) -> u16 { ";
pub const PROTOCOL_ID_IMPL_2: &'static str = " }\n}\n";
pub const PROTOCOL_CODE_0: &'static str = "// Generated file\n\n#[derive(Debug)]\npub enum Protocol {\n";
pub const PROTOCOL_CODE_1: &'static str = "\n}\n\nimpl Protocol {\n    pub fn decode(id: u16, data: bytes::Bytes) -> Result<Self, crate::protocol::Error> {\n        Ok(match id {\n";
pub const PROTOCOL_CODE_2: &'static str = "\n            _ => return Err(crate::protocol::Error::ProtocolId(id)),\n        })\n    }\n}\n\n";
pub const CATEGORY_VARIANT_0: &'static str = "    ";
pub const CATEGORY_VARIANT_1: &'static str = " = ";
pub const CATEGORY_VARIANT_2: &'static str = ",";
pub const CATEGORY_MATCH_0: &'static str = "            ";
pub const CATEGORY_MATCH_1: &'static str = " => Self::";
pub const CATEGORY_MATCH_2: &'static str = ",";
pub const CATEGORY_CODE_0: &'static str = "//Generated code\n#[derive(Debug, Clone, Copy, Hash, PartialEq)]\npub enum Category {\n";
pub const CATEGORY_CODE_1: &'static str = "\n}\n\nimpl Category {\n    pub fn decode(value: u8) -> Result<Self, crate::protocol::Error> {\n        Ok(match value {\n";
pub const CATEGORY_CODE_2: &'static str = "\n            _ => return Err(crate::protocol::Error::InvalidCategory(value)),\n        })\n    }\n}\n";

pub open spec fn protocol_variant_line_spec(protocol_name: Seq<char>, protocol_full_name: Seq<char>) -> Seq<char> {
    PROTOCOL_VARIANT_0@ + protocol_name + PROTOCOL_VARIANT_1@ + protocol_full_name + PROTOCOL_VARIANT_2@
}

pub open spec fn protocol_decode_line_spec(number: u16, protocol_name: Seq<char>, protocol_full_name: Seq<char>) -> Seq<char> {
    PROTOCOL_DECODE_0@ + decimal(number as nat) + PROTOCOL_DECODE_1@ + protocol_name + PROTOCOL_DECODE_2@ + protocol_full_name + PROTOCOL_DECODE_3@
}

pub open spec fn protocol_id_impl_spec(protocol_full_name: Seq<char>, number: u16) -> Seq<char> {
    PROTOCOL_ID_IMPL_0@ + protocol_full_name + PROTOCOL_ID_IMPL_1@ + decimal(number as nat) + PROTOCOL_ID_IMPL_2@
}

pub open spec fn protocol_code_spec(enums_code: Seq<char>, decode_matches_code: Seq<char>, id_impls_code: Seq<char>) -> Seq<char> {
    PROTOCOL_CODE_0@ + enums_code + PROTOCOL_CODE_1@ + decode_matches_code + PROTOCOL_CODE_2@ + id_impls_code
}

pub open spec fn category_variant_line_spec(name: Seq<char>, value: u8) -> Seq<char> {
    CATEGORY_VARIANT_0@ + name + CATEGORY_VARIANT_1@ + decimal(value as nat) + CATEGORY_VARIANT_2@
}

pub open spec fn category_match_line_spec(value: u8, name: Seq<char>) -> Seq<char> {
    CATEGORY_MATCH_0@ + decimal(value as nat) + CATEGORY_MATCH_1@ + name + CATEGORY_MATCH_2@
}

pub open spec fn category_code_spec(category_definitions_code: Seq<char>, category_matches_code: Seq<char>) -> Seq<char> {
    CATEGORY_CODE_0@ + category_definitions_code + CATEGORY_CODE_1@ + category_matches_code + CATEGORY_CODE_2@
}

/// The variant of the protocol enumeration for one protocol.
pub fn protocol_variant_line(protocol_name: &str, protocol_full_name: &str) -> (r: String)
    ensures
        r@ == protocol_variant_line_spec(protocol_name@, protocol_full_name@),
{
    let mut out = String::new();
    out.append(PROTOCOL_VARIANT_0);
    out.append(protocol_name);
    out.append(PROTOCOL_VARIANT_1);
    out.append(protocol_full_name);
    out.append(PROTOCOL_VARIANT_2);
    out
}

/// The arm that decodes one protocol by its number.
pub fn protocol_decode_line(number: u16, protocol_name: &str, protocol_full_name: &str) -> (r: String)
    ensures
        r@ == protocol_decode_line_spec(number, protocol_name@, protocol_full_name@),
{
    let mut out = String::new();
    out.append(PROTOCOL_DECODE_0);
    push_decimal(&mut out, number as u64);
    out.append(PROTOCOL_DECODE_1);
    out.append(protocol_name);
    out.append(PROTOCOL_DECODE_2);
    out.append(protocol_full_name);
    out.append(PROTOCOL_DECODE_3);
    out
}

/// The implementation that gives one protocol its number.
pub fn protocol_id_impl(protocol_full_name: &str, number: u16) -> (r: String)
    ensures
        r@ == protocol_id_impl_spec(protocol_full_name@, number),
{
    let mut out = String::new();
    out.append(PROTOCOL_ID_IMPL_0);
    out.append(protocol_full_name);
    out.append(PROTOCOL_ID_IMPL_1);
    push_decimal(&mut out, number as u64);
    out.append(PROTOCOL_ID_IMPL_2);
    out
}

/// The generated protocol source from its parts.
pub fn protocol_code(enums_code: &str, decode_matches_code: &str, id_impls_code: &str) -> (r: String)
    ensures
        r@ == protocol_code_spec(enums_code@, decode_matches_code@, id_impls_code@),
{
    let mut out = String::new();
    out.append(PROTOCOL_CODE_0);
    out.append(enums_code);
    out.append(PROTOCOL_CODE_1);
    out.append(decode_matches_code);
    out.append(PROTOCOL_CODE_2);
    out.append(id_impls_code);
    out
}

/// The variant of the category enumeration for one category.
pub fn category_variant_line(name: &str, value: u8) -> (r: String)
    ensures
        r@ == category_variant_line_spec(name@, value),
{
    let mut out = String::new();
    out.append(CATEGORY_VARIANT_0);
    out.append(name);
    out.append(CATEGORY_VARIANT_1);
    push_decimal(&mut out, value as u64);
    out.append(CATEGORY_VARIANT_2);
    out
}

/// The arm that decodes one category by its value.
pub fn category_match_line(value: u8, name: &str) -> (r: String)
    ensures
        r@ == category_match_line_spec(value, name@),
{
    let mut out = String::new();
    out.append(CATEGORY_MATCH_0);
    push_decimal(&mut out, value as u64);
    out.append(CATEGORY_MATCH_1);
    out.append(name);
    out.append(CATEGORY_MATCH_2);
    out
}

/// The generated category source from its parts.
pub fn category_code(category_definitions_code: &str, category_matches_code: &str) -> (r: String)
    ensures
        r@ == category_code_spec(category_definitions_code@, category_matches_code@),
{
    let mut out = String::new();
    out.append(CATEGORY_CODE_0);
    out.append(category_definitions_code);
    out.append(CATEGORY_CODE_1);
    out.append(category_matches_code);
    out.append(CATEGORY_CODE_2);
    out
}

/// The plain view of numbered protocols: name, Rust path and number.
pub open spec fn protocols_view(v: Seq<(String, String, u16)>) -> Seq<(Seq<char>, Seq<char>, u16)> {
    v.map_values(|p: (String, String, u16)| (p.0@, p.1@, p.2))
}

/// The generated protocol source for the protocols `ps`, in order.
pub open spec fn protocol_source_spec(ps: Seq<(Seq<char>, Seq<char>, u16)>) -> Seq<char> {
    protocol_code_spec(
        seq_join(Seq::new(ps.len(), |i: int| protocol_variant_line_spec(ps[i].0, ps[i].1)), "\n"@),
        seq_join(Seq::new(ps.len(), |i: int| protocol_decode_line_spec(ps[i].2, ps[i].0, ps[i].1)), "\n"@),
        seq_join(Seq::new(ps.len(), |i: int| protocol_id_impl_spec(ps[i].1, ps[i].2)), "\n"@),
    )
}

/// The generated protocol source: a variant, a decoding arm and a numbering
/// for each protocol, given as name, Rust path and number.
pub fn protocol_source(protocols: &Vec<(String, String, u16)>) -> (r: String)
    ensures
        r@ == protocol_source_spec(protocols_view(protocols@)),
{
    let ghost ps = protocols_view(protocols@);
    let mut enums: Vec<String> = Vec::new();
    let mut decode_matches: Vec<String> = Vec::new();
    let mut id_impls: Vec<String> = Vec::new();
    let mut i: usize = 0;
    while i < protocols.len()
        invariant
            i <= protocols.len(),
            ps == protocols_view(protocols@),
            views(enums@) =~= Seq::new(i as nat, |k: int| protocol_variant_line_spec(ps[k].0, ps[k].1)),
            views(decode_matches@) =~= Seq::new(i as nat, |k: int| protocol_decode_line_spec(ps[k].2, ps[k].0, ps[k].1)),
            views(id_impls@) =~= Seq::new(i as nat, |k: int| protocol_id_impl_spec(ps[k].1, ps[k].2)),
        decreases protocols.len() - i,
    {
        let p = &protocols[i];
        let a = protocol_variant_line(p.0.as_str(), p.1.as_str());
        let b = protocol_decode_line(p.2, p.0.as_str(), p.1.as_str());
        let c = protocol_id_impl(p.1.as_str(), p.2);
        let ghost (ea, eb, ec) = (views(enums@), views(decode_matches@), views(id_impls@));
        enums.push(a);
        decode_matches.push(b);
        id_impls.push(c);
        proof {
            assert(views(enums@) =~= ea.push(a@));
            assert(views(decode_matches@) =~= eb.push(b@));
            assert(views(id_impls@) =~= ec.push(c@));
        }
        i = i + 1;
    }
    let enums_code = join(&enums, "\n");
    let decode_matches_code = join(&decode_matches, "\n");
    let id_impls_code = join(&id_impls, "\n");
    protocol_code(enums_code.as_str(), decode_matches_code.as_str(), id_impls_code.as_str())
}

} // verus!
