//! The game server's protocol generator: protocols are the values of the
//! `ProtocolId` enumeration of the compiled protocol descriptors, each found
//! in the package that declares its message; and the category enumeration.

use vstd::prelude::*;
use crate::generator::{find_index, lemma_find_index};
use crate::names::{file_name_of, path_file_name};
use crate::protocol_source::{
    category_code, category_code_spec, category_match_line, category_match_line_spec, category_variant_line,
    category_variant_line_spec, protocol_source, protocol_source_spec, protocols_view,
};
use crate::text::{join, seq_join, split_str, split_str_spec, str_eq, views};

verus! {

/// The file that declares the protocol numbers.
pub const PROTOCOL_ID_FILE_NAME: &'static str = "protocol_id.proto";

/// The enumeration that declares the protocol numbers.
pub const PROTOCOL_ID_ENUM_NAME: &'static str = "ProtocolId";

/// Where the game server's protocol generator reads and writes.
#[derive(Debug)]
pub struct Config {
    pub schema_dir: String,
    pub gen_dir: String,
    pub category_path: String,
    pub category_gen_path: String,
    pub dry_run: bool,
}

/// An enumeration of a compiled protocol file: its name and its values.
#[derive(Debug)]
pub struct ProtoEnum {
    pub name: String,
    pub values: Vec<(String, i32)>,
}

/// A compiled protocol file: its path, its package, the names of its
/// messages and its enumerations.
#[derive(Debug)]
pub struct ProtoFile {
    pub name: String,
    pub package: String,
    pub messages: Vec<String>,
    pub enums: Vec<ProtoEnum>,
}

/// Why the protocol generator stops.
#[derive(Debug, Clone, Copy, PartialEq, Eq, Structural)]
pub enum ProtocolError {
    IdFileNotFound,
    IdEnumNotFound,
}

impl ProtocolError {
    /// The message the error is reported with.
    pub fn message(&self) -> (r: String)
        ensures
            r@ == (match *self {
                ProtocolError::IdFileNotFound => "protocol_id.proto file not found!"@,
                ProtocolError::IdEnumNotFound => "ProtocolId enum type not found"@,
            }),
    {
        match self {
            ProtocolError::IdFileNotFound => "protocol_id.proto file not found!".to_owned(),
            ProtocolError::IdEnumNotFound => "ProtocolId enum type not found".to_owned(),
        }
    }
}

/// `s` with every occurrence of `from` replaced by `to`, as `str::replace` gives it.
pub open spec fn replaced(s: Seq<char>, from: Seq<char>, to: Seq<char>) -> Seq<char> {
    seq_join(split_str_spec(s, from), to)
}

/// `s` with every occurrence of `from` replaced by `to`.
pub fn replace_all(s: &str, from: &str, to: &str) -> (r: String)
    requires
        from@.len() > 0,
    ensures
        r@ == replaced(s@, from@, to@),
{
    let parts = split_str(s, from);
    join(&parts, to)
}

/// The Rust module of a protocol package: dots become `::`, and `spire`
/// becomes `crate`.
pub open spec fn package_module(package: Seq<char>) -> Seq<char> {
    replaced(replaced(package, "."@, "::"@), "spire"@, "crate"@)
}

/// The package of the last of the first `m` files that declares message `name`.
pub open spec fn package_of(files: Seq<ProtoFile>, name: Seq<char>, m: nat) -> Option<Seq<char>>
    decreases m,
{
    if m == 0 {
        None
    } else if views(files[m - 1].messages@).contains(name) {
        Some(files[m - 1].package@)
    } else {
        package_of(files, name, (m - 1) as nat)
    }
}

/// The search for the protocol number file from the `i`-th file on: the
/// position of the first file so named, `Some(None)` if there is none, and
/// `None` where a file before it has a path without a file name.
pub open spec fn id_file_search(files: Seq<ProtoFile>, i: int) -> Option<Option<int>>
    decreases files.len() - i,
{
    if i < 0 || i >= files.len() {
        Some(None)
    } else {
        match path_file_name(files[i].name@) {
            None => None,
            Some(f) => if f == PROTOCOL_ID_FILE_NAME@ { Some(Some(i)) } else { id_file_search(files, i + 1) },
        }
    }
}

/// The names of a file's enumerations.
pub open spec fn enum_names(enums: Seq<ProtoEnum>) -> Seq<Seq<char>> {
    enums.map_values(|e: ProtoEnum| e.name@)
}

/// Every value of the enumeration names a message of some file.
pub open spec fn values_declared(files: Seq<ProtoFile>, values: Seq<(String, i32)>) -> bool {
    forall|k: int| 0 <= k < values.len() ==> #[trigger] package_of(files, values[k].0@, files.len()) is Some
}

/// The protocols of the enumeration's values: name, path in its package's
/// module, and number.
pub open spec fn declared_protocols(files: Seq<ProtoFile>, values: Seq<(String, i32)>) -> Seq<(Seq<char>, Seq<char>, u16)> {
    Seq::new(values.len(), |k: int| (
        values[k].0@,
        package_module(package_of(files, values[k].0@, files.len())->0) + "::"@ + values[k].0@,
        values[k].1 as u16,
    ))
}

/// The position of the first file named as the protocol number file.
fn find_id_file(files: &Vec<ProtoFile>) -> (r: Option<Option<usize>>)
    ensures
        match r {
            None => id_file_search(files@, 0) is None,
            Some(None) => id_file_search(files@, 0) == Some(None::<int>),
            Some(Some(i)) => id_file_search(files@, 0) == Some(Some(i as int)) && i < files@.len(),
        },
{
    let mut i: usize = 0;
    while i < files.len()
        invariant
            i <= files.len(),
            id_file_search(files@, 0) == id_file_search(files@, i as int),
        decreases files.len() - i,
    {
        match file_name_of(files[i].name.as_str()) {
            None => {
                return None;
            },
            Some(f) => {
                if str_eq(f.as_str(), PROTOCOL_ID_FILE_NAME) {
                    return Some(Some(i));
                }
            },
        }
        i = i + 1;
    }
    Some(None)
}

/// The package of the last file that declares message `name`.
fn find_package(files: &Vec<ProtoFile>, name: &str) -> (r: Option<String>)
    ensures
        match r {
            None => package_of(files@, name@, files@.len()) is None,
            Some(p) => package_of(files@, name@, files@.len()) == Some(p@),
        },
{
    let mut found: Option<String> = None;
    let mut i: usize = 0;
    while i < files.len()
        invariant
            i <= files.len(),
            match found {
                None => package_of(files@, name@, i as nat) is None,
                Some(p) => package_of(files@, name@, i as nat) == Some(p@),
            },
        decreases files.len() - i,
    {
        let messages = &files[i].messages;
        let mut declared = false;
        let mut j: usize = 0;
        while j < messages.len()
            invariant
                j <= messages.len(),
                declared == exists|t: int| 0 <= t < j && #[trigger] messages@[t]@ == name@,
            decreases messages.len() - j,
        {
            if str_eq(messages[j].as_str(), name) {
                declared = true;
            }
            j = j + 1;
        }
        proof {
            let vm = views(messages@);
            if declared {
                let t = choose|t: int| 0 <= t < messages@.len() && #[trigger] messages@[t]@ == name@;
                assert(vm[t] == name@);
            }
            if vm.contains(name@) {
                let t = choose|t: int| 0 <= t < vm.len() && vm[t] == name@;
                assert(messages@[t]@ == name@);
            }
        }
        if declared {
            found = Some(files[i].package.clone());
        }
        i = i + 1;
    }
    found
}

/// The position of the enumeration named `name`.
fn find_enum(enums: &Vec<ProtoEnum>, name: &str) -> (r: Option<usize>)
    ensures
        match r {
            Some(i) => find_index(enum_names(enums@), name@) == Some(i as int),
            None => find_index(enum_names(enums@), name@) is None,
        },
{
    let ghost s = enum_names(enums@);
    let mut i: usize = 0;
    while i < enums.len()
        invariant
            i <= enums.len(),
            s == enum_names(enums@),
            forall|j: int| 0 <= j < i ==> s[j] != name@,
        decreases enums.len() - i,
    {
        assert(s[i as int] == enums@[i as int].name@);
        if str_eq(enums[i].name.as_str(), name) {
            proof {
                lemma_find_index(s, name@);
                match find_index(s, name@) {
                    Some(k) => {
                        if k > i {
                            assert(s[i as int] != name@);
                        } else if k < i {
                            assert(s[k] != name@);
                        }
                    },
                    None => {
                        assert(s[i as int] != name@);
                    },
                }
            }
            return Some(i);
        }
        i = i + 1;
    }
    proof {
        lemma_find_index(s, name@);
        match find_index(s, name@) {
            Some(k) => { assert(s[k] != name@); },
            None => {},
        }
    }
    None
}

impl Config {
    /// The generated protocol source for the compiled protocol files: a
    /// protocol for each value of `ProtocolId` in `protocol_id.proto`, in
    /// the module of the package that declares its message. `None` where the
    /// generator stops without an error: a file path without a file name met
    /// before that file, or a value that names no message.
    pub fn generate_impl_code(&self, files: &Vec<ProtoFile>) -> (r: Option<Result<String, ProtocolError>>)
        ensures
            match id_file_search(files@, 0) {
                None => r is None,
                Some(None) => r == Some(Err::<String, ProtocolError>(ProtocolError::IdFileNotFound)),
                Some(Some(i)) => match find_index(enum_names(files@[i].enums@), PROTOCOL_ID_ENUM_NAME@) {
                    None => r == Some(Err::<String, ProtocolError>(ProtocolError::IdEnumNotFound)),
                    Some(e) => {
                        let values = files@[i].enums@[e].values@;
                        if values_declared(files@, values) {
                            r matches Some(Ok(code)) && code@ == protocol_source_spec(declared_protocols(files@, values))
                        } else {
                            r is None
                        }
                    },
                },
            },
    {
        let i = match find_id_file(files) {
            None => {
                return None;
            },
            Some(None) => {
                return Some(Err(ProtocolError::IdFileNotFound));
            },
            Some(Some(i)) => i,
        };
        let file = &files[i];
        proof { lemma_find_index(enum_names(file.enums@), PROTOCOL_ID_ENUM_NAME@); }
        let e = match find_enum(&file.enums, PROTOCOL_ID_ENUM_NAME) {
            None => {
                return Some(Err(ProtocolError::IdEnumNotFound));
            },
            Some(e) => e,
        };
        let values = &file.enums[e].values;
        let ghost want = declared_protocols(files@, values@);
        let mut protocols: Vec<(String, String, u16)> = Vec::new();
        let mut k: usize = 0;
        while k < values.len()
            invariant
                k <= values.len(),
                want == declared_protocols(files@, values@),
                i < files@.len(),
                id_file_search(files@, 0) == Some(Some(i as int)),
                find_index(enum_names(files@[i as int].enums@), PROTOCOL_ID_ENUM_NAME@) == Some(e as int),
                e < files@[i as int].enums@.len(),
                values@ == files@[i as int].enums@[e as int].values@,
                forall|t: int| 0 <= t < k ==> #[trigger] package_of(files@, values@[t].0@, files@.len()) is Some,
                protocols_view(protocols@) =~= want.take(k as int),
            decreases values.len() - k,
        {
            let name = &values[k].0;
            let package = match find_package(files, name.as_str()) {
                None => {
                    assert(!values_declared(files@, values@));
                    return None;
                },
                Some(p) => p,
            };
            proof {
                reveal_strlit(".");
                reveal_strlit("spire");
            }
            let dotted = replace_all(package.as_str(), ".", "::");
            let mut full = replace_all(dotted.as_str(), "spire", "crate");
            full.append("::");
            full.append(name.as_str());
            let number = values[k].1 as u16;
            let ghost before = protocols_view(protocols@);
            protocols.push((name.clone(), full, number));
            proof {
                assert(protocols_view(protocols@) =~= before.push(want[k as int]));
                assert(want.take(k + 1) =~= want.take(k as int).push(want[k as int]));
            }
            k = k + 1;
        }
        assert(want.take(values.len() as int) =~= want);
        Some(Ok(protocol_source(&protocols)))
    }
}

/// A protocol category: its name and its value.
#[derive(Debug)]
pub struct Category {
    pub name: String,
    pub value: u8,
}

/// The generated category source for the categories `cs`, in order.
pub open spec fn category_source_spec(cs: Seq<Category>) -> Seq<char> {
    category_code_spec(
        seq_join(Seq::new(cs.len(), |i: int| category_variant_line_spec(cs[i].name@, cs[i].value)), "\n"@),
        seq_join(Seq::new(cs.len(), |i: int| category_match_line_spec(cs[i].value, cs[i].name@)), "\n"@),
    )
}

impl Config {
    /// The generated category source: a variant and a decoding arm for each
    /// category.
    pub fn generate_category(&self, categories: &Vec<Category>) -> (r: String)
        ensures
            r@ == category_source_spec(categories@),
    {
        let mut definitions: Vec<String> = Vec::new();
        let mut matches: Vec<String> = Vec::new();
        let mut i: usize = 0;
        while i < categories.len()
            invariant
                i <= categories.len(),
                views(definitions@) =~= Seq::new(i as nat, |k: int| category_variant_line_spec(categories@[k].name@, categories@[k].value)),
                views(matches@) =~= Seq::new(i as nat, |k: int| category_match_line_spec(categories@[k].value, categories@[k].name@)),
            decreases categories.len() - i,
        {
            let c = &categories[i];
            let a = category_variant_line(c.name.as_str(), c.value);
            let b = category_match_line(c.value, c.name.as_str());
            let ghost (da, db) = (views(definitions@), views(matches@));
            definitions.push(a);
            matches.push(b);
            proof {
                assert(views(definitions@) =~= da.push(a@));
                assert(views(matches@) =~= db.push(b@));
            }
            i = i + 1;
        }
        let definitions_code = join(&definitions, "\n");
        let matches_code = join(&matches, "\n");
        category_code(definitions_code.as_str(), matches_code.as_str())
    }
}

} // verus!
