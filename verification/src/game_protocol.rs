//! The protocol generator of the game protocol crate: protocols are listed
//! by category, and numbered from the category's offset on.

use vstd::prelude::*;
use crate::protocol_source::{protocol_source, protocol_source_spec, protocols_view};
use crate::text::views;

verus! {

/// Where the protocol generator reads and writes.
#[derive(Debug)]
pub struct Config {
    pub schema_dir: String,
    pub gen_dir: String,
    pub dry_run: bool,
}

/// A category of protocols: its module, the number of its first protocol,
/// and its protocols' names in order.
#[derive(Debug)]
pub struct Category {
    pub category: String,
    pub offset: u16,
    pub protocols: Vec<String>,
}

/// The protocols of one category: each with its path below the category's
/// module and its number, counted up from `offset`.
pub open spec fn category_protocols(category: Seq<char>, offset: u16, names: Seq<Seq<char>>) -> Seq<(Seq<char>, Seq<char>, u16)> {
    Seq::new(names.len(), |j: int| (names[j], "crate::protocol::"@ + category + "::"@ + names[j], (offset + j) as u16))
}

/// The protocols of the first `m` categories, in order.
pub open spec fn numbered_protocols(categories: Seq<Category>, m: nat) -> Seq<(Seq<char>, Seq<char>, u16)>
    decreases m,
{
    if m == 0 {
        Seq::empty()
    } else {
        let c = categories[m - 1];
        numbered_protocols(categories, (m - 1) as nat) + category_protocols(c.category@, c.offset, views(c.protocols@))
    }
}

/// Counting one past each category's last protocol stays within `u16`.
pub open spec fn offsets_fit(categories: Seq<Category>) -> bool {
    forall|i: int| 0 <= i < categories.len() ==> #[trigger] categories[i].offset + categories[i].protocols@.len() <= u16::MAX
}

/// Whether counting one past each category's last protocol stays within `u16`.
pub fn offsets_fit_check(categories: &Vec<Category>) -> (r: bool)
    ensures
        r == offsets_fit(categories@),
{
    let mut i: usize = 0;
    while i < categories.len()
        invariant
            i <= categories.len(),
            forall|k: int| 0 <= k < i ==> #[trigger] categories@[k].offset + categories@[k].protocols@.len() <= u16::MAX,
        decreases categories.len() - i,
    {
        let c = &categories[i];
        if c.protocols.len() > (u16::MAX - c.offset) as usize {
            return false;
        }
        i = i + 1;
    }
    true
}

/// The protocols of all categories, each with its path and number.
pub fn number_protocols(categories: &Vec<Category>) -> (r: Vec<(String, String, u16)>)
    requires
        offsets_fit(categories@),
    ensures
        protocols_view(r@) == numbered_protocols(categories@, categories@.len()),
{
    let mut r: Vec<(String, String, u16)> = Vec::new();
    let mut i: usize = 0;
    while i < categories.len()
        invariant
            i <= categories.len(),
            offsets_fit(categories@),
            protocols_view(r@) == numbered_protocols(categories@, i as nat),
        decreases categories.len() - i,
    {
        let c = &categories[i];
        assert(c.offset + c.protocols@.len() <= u16::MAX);
        let ghost before = protocols_view(r@);
        let ghost names = views(c.protocols@);
        let mut number: u16 = c.offset;
        let mut j: usize = 0;
        while j < c.protocols.len()
            invariant
                j <= c.protocols.len(),
                c.offset + c.protocols@.len() <= u16::MAX,
                number == c.offset + j,
                names == views(c.protocols@),
                protocols_view(r@) == before + category_protocols(c.category@, c.offset, names).take(j as int),
            decreases c.protocols.len() - j,
        {
            let mut full = String::new();
            full.append("crate::protocol::");
            full.append(c.category.as_str());
            full.append("::");
            full.append(c.protocols[j].as_str());
            let name = c.protocols[j].clone();
            let ghost prev = protocols_view(r@);
            r.push((name, full, number));
            proof {
                assert(protocols_view(r@) =~= prev.push((names[j as int], "crate::protocol::"@ + c.category@ + "::"@ + names[j as int], number)));
                assert(category_protocols(c.category@, c.offset, names).take(j + 1)
                    =~= category_protocols(c.category@, c.offset, names).take(j as int).push(
                        (names[j as int], "crate::protocol::"@ + c.category@ + "::"@ + names[j as int], number)));
                assert(protocols_view(r@) =~= before + category_protocols(c.category@, c.offset, names).take(j + 1));
            }
            number = number + 1;
            j = j + 1;
        }
        assert(category_protocols(c.category@, c.offset, names).take(c.protocols.len() as int)
            =~= category_protocols(c.category@, c.offset, names));
        i = i + 1;
    }
    r
}

impl Config {
    /// The generated protocol source for the protocols of `categories`.
    pub fn generate_impl_code(&self, categories: &Vec<Category>) -> (r: String)
        requires
            offsets_fit(categories@),
        ensures
            r@ == protocol_source_spec(numbered_protocols(categories@, categories@.len())),
    {
        let protocols = number_protocols(categories);
        protocol_source(&protocols)
    }
}

} // verus!
