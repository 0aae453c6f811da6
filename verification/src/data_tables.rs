//! The game data tables: the rows of each sheet, how a sheet's rows are
//! parsed and loaded, and the tables that gather the rows of the tables
//! extending them.

use vstd::prelude::*;
use crate::text::{decimal, decimal_string};

verus! {

/// The id of a data row.
pub type DataId = u32;

/// The number of the sheet row before the first data row: the header rows
/// come first, and rows are counted from one.
pub const FIRST_ROW: usize = 3;

/// Why a row does not parse.
#[derive(Debug)]
pub enum ParseError {
    InvalidColumnCount { expected: usize, actual: usize },
    InvalidValue { reason: String },
}

/// Why a row breaks a constraint of its table.
#[derive(Debug)]
pub enum ConstraintError {
    Unique { row_type: &'static str, value: String },
    Max { row_type: &'static str, expected: String, actual: String },
}

/// Why loading the data stops.
#[derive(Debug)]
#[allow(inconsistent_fields)]
pub enum Error {
    Parse { workbook: &'static str, sheet: &'static str, row: usize, column: &'static str, error: ParseError },
    DuplicateId { row_type: &'static str, id: DataId },
    Constraint { workbook: &'static str, sheet: &'static str, row: usize, column: &'static str, error: ConstraintError },
}

/// The id of a parse result; any value for a refused row.
pub open spec fn parsed_id<R>(p: Result<(DataId, R), (&'static str, ParseError)>) -> DataId {
    match p {
        Ok((id, _)) => id,
        Err(_) => 0,
    }
}

/// The first `k` rows parsed, with ids that differ.
pub open spec fn accepted_prefix<R>(parsed: Seq<Result<(DataId, R), (&'static str, ParseError)>>, k: int) -> bool {
    &&& forall|j: int| 0 <= j < k ==> #[trigger] parsed[j] is Ok
    &&& forall|a: int, b: int| 0 <= a < b < k ==> parsed_id(#[trigger] parsed[a]) != parsed_id(#[trigger] parsed[b])
}

/// Row `i` did not parse, or repeats the id of an earlier row.
pub open spec fn refused_at<R>(parsed: Seq<Result<(DataId, R), (&'static str, ParseError)>>, i: int) -> bool {
    ||| parsed[i] is Err
    ||| exists|j: int| 0 <= j < i && parsed_id(#[trigger] parsed[j]) == parsed_id(parsed[i])
}

/// The error that refusing row `i` gives.
pub open spec fn refusal<R>(
    parsed: Seq<Result<(DataId, R), (&'static str, ParseError)>>,
    i: int,
    workbook: &'static str,
    sheet: &'static str,
    row_type: &'static str,
) -> Error {
    match parsed[i] {
        Err((column, error)) => Error::Parse { workbook, sheet, row: (i + FIRST_ROW) as usize, column, error },
        Ok((id, _)) => Error::DuplicateId { row_type, id },
    }
}

/// The rows of the parse results.
pub open spec fn accepted_rows<R>(parsed: Seq<Result<(DataId, R), (&'static str, ParseError)>>) -> Seq<(DataId, R)> {
    parsed.map_values(|p: Result<(DataId, R), (&'static str, ParseError)>| match p {
        Ok(x) => x,
        Err(_) => arbitrary(),
    })
}

/// The outcome of loading the parse results of a sheet: all rows in order
/// when every row is accepted, else the error of the first refused row.
pub open spec fn load_result<R>(
    parsed: Seq<Result<(DataId, R), (&'static str, ParseError)>>,
    workbook: &'static str,
    sheet: &'static str,
    row_type: &'static str,
    r: Result<Seq<(DataId, R)>, Error>,
) -> bool {
    match r {
        Ok(rows) => accepted_prefix(parsed, parsed.len() as int) && rows == accepted_rows(parsed),
        Err(e) => exists|i: int| 0 <= i < parsed.len() && accepted_prefix(parsed, i) && refused_at(parsed, i)
            && e == refusal(parsed, i, workbook, sheet, row_type),
    }
}

/// A table that loads holds each id once, and every row under the id it
/// was parsed with.
pub proof fn lemma_loaded_ids_distinct<R>(
    parsed: Seq<Result<(DataId, R), (&'static str, ParseError)>>,
    workbook: &'static str,
    sheet: &'static str,
    row_type: &'static str,
    rows: Seq<(DataId, R)>,
)
    requires
        load_result(parsed, workbook, sheet, row_type, Ok(rows)),
    ensures
        rows.len() == parsed.len(),
        forall|a: int, b: int| 0 <= a < b < rows.len() ==> #[trigger] rows[a].0 != #[trigger] rows[b].0,
        forall|j: int| 0 <= j < rows.len() ==> parsed[j] == Ok::<(DataId, R), (&'static str, ParseError)>(#[trigger] rows[j]),
{
    assert forall|a: int, b: int| 0 <= a < b < rows.len() implies #[trigger] rows[a].0 != #[trigger] rows[b].0 by {
        assert(parsed_id(parsed[a]) != parsed_id(parsed[b]));
        assert(parsed[a] is Ok);
        assert(parsed[b] is Ok);
    }
    assert forall|j: int| 0 <= j < rows.len() implies parsed[j] == Ok::<(DataId, R), (&'static str, ParseError)>(#[trigger] rows[j]) by {
        assert(parsed[j] is Ok);
    }
}

/// Whether `id` is the id of one of `rows`.
fn has_id<R>(rows: &Vec<(DataId, R)>, id: DataId) -> (r: bool)
    ensures
        r == exists|j: int| 0 <= j < rows@.len() && rows@[j].0 == id,
{
    let mut i: usize = 0;
    while i < rows.len()
        invariant
            i <= rows@.len(),
            forall|j: int| 0 <= j < i ==> rows@[j].0 != id,
        decreases rows.len() - i,
    {
        if rows[i].0 == id {
            return true;
        }
        i = i + 1;
    }
    false
}

/// Loads the parse results of a sheet, in order: the first row that did
/// not parse, or repeats the id of an earlier row, stops the load.
pub fn load_rows<R>(
    parsed: Vec<Result<(DataId, R), (&'static str, ParseError)>>,
    workbook: &'static str,
    sheet: &'static str,
    row_type: &'static str,
) -> (r: Result<Vec<(DataId, R)>, Error>)
    requires
        parsed@.len() + FIRST_ROW <= usize::MAX,
    ensures
        load_result(parsed@, workbook, sheet, row_type, match r { Ok(v) => Ok(v@), Err(e) => Err(e) }),
{
    let ghost all = parsed@;
    let mut rest = parsed;
    let mut rows: Vec<(DataId, R)> = Vec::new();
    let mut index: usize = FIRST_ROW;
    while rest.len() > 0
        invariant
            all.len() + FIRST_ROW <= usize::MAX,
            rows@.len() + rest@.len() == all.len(),
            all == parsed@,
            index == rows@.len() + FIRST_ROW,
            rest@ == all.subrange(rows@.len() as int, all.len() as int),
            accepted_prefix(all, rows@.len() as int),
            rows@ == accepted_rows(all).take(rows@.len() as int),
        decreases rest.len(),
    {
        let ghost k = rows@.len() as int;
        let p = rest.remove(0);
        assert(p == all[k]);
        match p {
            Err((column, error)) => {
                let e = Error::Parse { workbook, sheet, row: index, column, error };
                proof {
                    assert(refused_at(all, k));
                    assert(e == refusal(all, k, workbook, sheet, row_type));
                }
                return Err(e);
            },
            Ok((id, row)) => {
                assert forall|j: int| 0 <= j < k implies rows@[j].0 == parsed_id(#[trigger] all[j]) by {
                    assert(accepted_rows(all)[j] == rows@[j]);
                }
                if has_id(&rows, id) {
                    proof {
                        let j = choose|j: int| 0 <= j < rows@.len() && rows@[j].0 == id;
                        assert(parsed_id(all[j]) == parsed_id(all[k]));
                        assert(refused_at(all, k));
                        assert(Error::DuplicateId { row_type, id } == refusal(all, k, workbook, sheet, row_type));
                    }
                    return Err(Error::DuplicateId { row_type, id });
                }
                rows.push((id, row));
                proof {
                    assert(accepted_rows(all).take(k + 1) =~= accepted_rows(all).take(k).push(all[k]->Ok_0));
                    assert forall|a: int, b: int| 0 <= a < b < k + 1 implies parsed_id(#[trigger] all[a]) != parsed_id(#[trigger] all[b]) by {
                        if b == k {
                            assert(rows@[a].0 == parsed_id(all[a]));
                        }
                    }
                }
                index = index + 1;
            },
        }
    }
    assert(accepted_rows(all).take(all.len() as int) =~= accepted_rows(all));
    Ok(rows)
}


/// The workbook of the Weapon rows.
pub const WEAPON_WORKBOOK: &'static str = "weapon.ods";
/// The sheet of the Weapon rows.
pub const WEAPON_SHEET: &'static str = "Weapon";

/// A row of the Weapon table.
#[derive(Debug)]
pub struct Weapon {
    pub id: DataId,
    pub name: String,
    pub weight: u16,
    pub damage: u32,
}

/// A Weapon row as read from its sheet: its number of cells, and what
/// parsing gave for the cell of each field: `id` from column 0, `name` from column 1, `weight` from column 2, `damage` from column 3.
#[derive(Debug)]
pub struct WeaponCells {
    pub count: usize,
    pub id: Result<DataId, ParseError>,
    pub name: Result<String, ParseError>,
    pub weight: Result<u16, ParseError>,
    pub damage: Result<u32, ParseError>,
}

/// The row of the cells: too few cells, or the first field, in column
/// order, whose cell does not parse, refused with the field's name.
pub open spec fn weapon_parse_spec(row: WeaponCells) -> Result<(DataId, Weapon), (&'static str, ParseError)> {
    if row.count < 4 {
        Err(("", ParseError::InvalidColumnCount { expected: 4, actual: row.count }))
    } else if row.id is Err {
        Err(("id", row.id->Err_0))
    } else if row.name is Err {
        Err(("name", row.name->Err_0))
    } else if row.weight is Err {
        Err(("weight", row.weight->Err_0))
    } else if row.damage is Err {
        Err(("damage", row.damage->Err_0))
    } else {
        Ok((row.id->Ok_0, Weapon { id: row.id->Ok_0, name: row.name->Ok_0, weight: row.weight->Ok_0, damage: row.damage->Ok_0 }))
    }
}

impl Weapon {
    /// The row of the cells: too few cells, or the first field, in column
    /// order, whose cell does not parse, is refused with the field's name.
    pub fn parse(row: WeaponCells) -> (r: Result<(DataId, Weapon), (&'static str, ParseError)>)
        ensures
            r == weapon_parse_spec(row),
    {
        if row.count < 4 {
            return Err(("", ParseError::InvalidColumnCount { expected: 4, actual: row.count }));
        }
        let id = match row.id {
            Ok(v) => v,
            Err(e) => {
                return Err(("id", e));
            },
        };
        let name = match row.name {
            Ok(v) => v,
            Err(e) => {
                return Err(("name", e));
            },
        };
        let weight = match row.weight {
            Ok(v) => v,
            Err(e) => {
                return Err(("weight", e));
            },
        };
        let damage = match row.damage {
            Ok(v) => v,
            Err(e) => {
                return Err(("damage", e));
            },
        };
        Ok((id, Weapon { id, name, weight, damage }))
    }
}

/// The Weapon rows by id, in the order they were read.
#[derive(Debug)]
pub struct WeaponTable {
    pub rows: Vec<(DataId, Weapon)>,
}

/// The parse results of a sheet's Weapon rows.
pub open spec fn weapon_parsed(rows: Seq<WeaponCells>) -> Seq<Result<(DataId, Weapon), (&'static str, ParseError)>> {
    rows.map_values(|c: WeaponCells| weapon_parse_spec(c))
}

/// Parses the rows of a sheet, in order.
fn parse_weapon_rows(rows: Vec<WeaponCells>) -> (r: Vec<Result<(DataId, Weapon), (&'static str, ParseError)>>)
    ensures
        r@ == weapon_parsed(rows@),
{
    let ghost all = rows@;
    let mut rows = rows;
    let mut parsed: Vec<Result<(DataId, Weapon), (&'static str, ParseError)>> = Vec::new();
    let ghost mut done: Seq<WeaponCells> = Seq::empty();
    while rows.len() > 0
        invariant
            done + rows@ == all,
            parsed@ == weapon_parsed(done),
        decreases rows.len(),
    {
        let ghost before = rows@;
        let row = rows.remove(0);
        let p = Weapon::parse(row);
        proof {
            assert(weapon_parsed(done.push(row)) =~= weapon_parsed(done).push(p));
            assert(done.push(row) + rows@ =~= done + before);
        }
        parsed.push(p);
        proof {
            done = done.push(row);
        }
    }
    assert(done =~= all);
    parsed
}

impl WeaponTable {
    /// Parses the rows of the sheet in order: the first row that does not
    /// parse, or repeats the id of an earlier row, stops the load.
    pub fn load(rows: Vec<WeaponCells>) -> (r: Result<WeaponTable, Error>)
        requires
            rows@.len() + FIRST_ROW <= usize::MAX,
        ensures
            load_result(weapon_parsed(rows@), WEAPON_WORKBOOK, WEAPON_SHEET, "Weapon", match r { Ok(t) => Ok(t.rows@), Err(e) => Err(e) }),
    {
        let parsed = parse_weapon_rows(rows);
        match load_rows(parsed, WEAPON_WORKBOOK, WEAPON_SHEET, "Weapon") {
            Ok(rows) => Ok(WeaponTable { rows }),
            Err(e) => Err(e),
        }
    }

    /// The first row with id `id`.
    pub fn get(&self, id: DataId) -> (r: Option<&Weapon>)
        ensures
            match r {
                Some(x) => exists|i: int| 0 <= i < self.rows@.len() && self.rows@[i].0 == id && self.rows@[i].1 == *x
                    && forall|j: int| 0 <= j < i ==> self.rows@[j].0 != id,
                None => forall|i: int| 0 <= i < self.rows@.len() ==> self.rows@[i].0 != id,
            },
    {
        find_row(&self.rows, id)
    }
}

/// The workbook of the Path rows.
pub const PATH_WORKBOOK: &'static str = "path.ods";
/// The sheet of the Path rows.
pub const PATH_SHEET: &'static str = "Path";

/// A row of the Path table.
#[derive(Debug)]
pub struct Path {
    pub id: DataId,
}

/// A Path row as read from its sheet: its number of cells, and what
/// parsing gave for the cell of each field: `id` from column 0.
#[derive(Debug)]
pub struct PathCells {
    pub count: usize,
    pub id: Result<DataId, ParseError>,
}

/// The row of the cells: too few cells, or the first field, in column
/// order, whose cell does not parse, refused with the field's name.
pub open spec fn path_parse_spec(row: PathCells) -> Result<(DataId, Path), (&'static str, ParseError)> {
    if row.count < 2 {
        Err(("", ParseError::InvalidColumnCount { expected: 2, actual: row.count }))
    } else if row.id is Err {
        Err(("id", row.id->Err_0))
    } else {
        Ok((row.id->Ok_0, Path { id: row.id->Ok_0 }))
    }
}

impl Path {
    /// The row of the cells: too few cells, or the first field, in column
    /// order, whose cell does not parse, is refused with the field's name.
    pub fn parse(row: PathCells) -> (r: Result<(DataId, Path), (&'static str, ParseError)>)
        ensures
            r == path_parse_spec(row),
    {
        if row.count < 2 {
            return Err(("", ParseError::InvalidColumnCount { expected: 2, actual: row.count }));
        }
        let id = match row.id {
            Ok(v) => v,
            Err(e) => {
                return Err(("id", e));
            },
        };
        Ok((id, Path { id }))
    }
}

/// The Path rows by id, in the order they were read.
#[derive(Debug)]
pub struct PathTable {
    pub rows: Vec<(DataId, Path)>,
}

/// The parse results of a sheet's Path rows.
pub open spec fn path_parsed(rows: Seq<PathCells>) -> Seq<Result<(DataId, Path), (&'static str, ParseError)>> {
    rows.map_values(|c: PathCells| path_parse_spec(c))
}

/// Parses the rows of a sheet, in order.
fn parse_path_rows(rows: Vec<PathCells>) -> (r: Vec<Result<(DataId, Path), (&'static str, ParseError)>>)
    ensures
        r@ == path_parsed(rows@),
{
    let ghost all = rows@;
    let mut rows = rows;
    let mut parsed: Vec<Result<(DataId, Path), (&'static str, ParseError)>> = Vec::new();
    let ghost mut done: Seq<PathCells> = Seq::empty();
    while rows.len() > 0
        invariant
            done + rows@ == all,
            parsed@ == path_parsed(done),
        decreases rows.len(),
    {
        let ghost before = rows@;
        let row = rows.remove(0);
        let p = Path::parse(row);
        proof {
            assert(path_parsed(done.push(row)) =~= path_parsed(done).push(p));
            assert(done.push(row) + rows@ =~= done + before);
        }
        parsed.push(p);
        proof {
            done = done.push(row);
        }
    }
    assert(done =~= all);
    parsed
}

impl PathTable {
    /// Parses the rows of the sheet in order: the first row that does not
    /// parse, or repeats the id of an earlier row, stops the load.
    pub fn load(rows: Vec<PathCells>) -> (r: Result<PathTable, Error>)
        requires
            rows@.len() + FIRST_ROW <= usize::MAX,
        ensures
            load_result(path_parsed(rows@), PATH_WORKBOOK, PATH_SHEET, "Path", match r { Ok(t) => Ok(t.rows@), Err(e) => Err(e) }),
    {
        let parsed = parse_path_rows(rows);
        match load_rows(parsed, PATH_WORKBOOK, PATH_SHEET, "Path") {
            Ok(rows) => Ok(PathTable { rows }),
            Err(e) => Err(e),
        }
    }

    /// The first row with id `id`.
    pub fn get(&self, id: DataId) -> (r: Option<&Path>)
        ensures
            match r {
                Some(x) => exists|i: int| 0 <= i < self.rows@.len() && self.rows@[i].0 == id && self.rows@[i].1 == *x
                    && forall|j: int| 0 <= j < i ==> self.rows@[j].0 != id,
                None => forall|i: int| 0 <= i < self.rows@.len() ==> self.rows@[i].0 != id,
            },
    {
        find_row(&self.rows, id)
    }
}

/// The workbook of the PathNode rows.
pub const PATH_NODE_WORKBOOK: &'static str = "path_node.ods";
/// The sheet of the PathNode rows.
pub const PATH_NODE_SHEET: &'static str = "PathNode";

/// A row of the PathNode table.
#[derive(Debug)]
pub struct PathNode {
    pub id: DataId,
}

/// A PathNode row as read from its sheet: its number of cells, and what
/// parsing gave for the cell of each field: `id` from column 0.
#[derive(Debug)]
pub struct PathNodeCells {
    pub count: usize,
    pub id: Result<DataId, ParseError>,
}

/// The row of the cells: too few cells, or the first field, in column
/// order, whose cell does not parse, refused with the field's name.
pub open spec fn path_node_parse_spec(row: PathNodeCells) -> Result<(DataId, PathNode), (&'static str, ParseError)> {
    if row.count < 2 {
        Err(("", ParseError::InvalidColumnCount { expected: 2, actual: row.count }))
    } else if row.id is Err {
        Err(("id", row.id->Err_0))
    } else {
        Ok((row.id->Ok_0, PathNode { id: row.id->Ok_0 }))
    }
}

impl PathNode {
    /// The row of the cells: too few cells, or the first field, in column
    /// order, whose cell does not parse, is refused with the field's name.
    pub fn parse(row: PathNodeCells) -> (r: Result<(DataId, PathNode), (&'static str, ParseError)>)
        ensures
            r == path_node_parse_spec(row),
    {
        if row.count < 2 {
            return Err(("", ParseError::InvalidColumnCount { expected: 2, actual: row.count }));
        }
        let id = match row.id {
            Ok(v) => v,
            Err(e) => {
                return Err(("id", e));
            },
        };
        Ok((id, PathNode { id }))
    }
}

/// The PathNode rows by id, in the order they were read.
#[derive(Debug)]
pub struct PathNodeTable {
    pub rows: Vec<(DataId, PathNode)>,
}

/// The parse results of a sheet's PathNode rows.
pub open spec fn path_node_parsed(rows: Seq<PathNodeCells>) -> Seq<Result<(DataId, PathNode), (&'static str, ParseError)>> {
    rows.map_values(|c: PathNodeCells| path_node_parse_spec(c))
}

/// Parses the rows of a sheet, in order.
fn parse_path_node_rows(rows: Vec<PathNodeCells>) -> (r: Vec<Result<(DataId, PathNode), (&'static str, ParseError)>>)
    ensures
        r@ == path_node_parsed(rows@),
{
    let ghost all = rows@;
    let mut rows = rows;
    let mut parsed: Vec<Result<(DataId, PathNode), (&'static str, ParseError)>> = Vec::new();
    let ghost mut done: Seq<PathNodeCells> = Seq::empty();
    while rows.len() > 0
        invariant
            done + rows@ == all,
            parsed@ == path_node_parsed(done),
        decreases rows.len(),
    {
        let ghost before = rows@;
        let row = rows.remove(0);
        let p = PathNode::parse(row);
        proof {
            assert(path_node_parsed(done.push(row)) =~= path_node_parsed(done).push(p));
            assert(done.push(row) + rows@ =~= done + before);
        }
        parsed.push(p);
        proof {
            done = done.push(row);
        }
    }
    assert(done =~= all);
    parsed
}

impl PathNodeTable {
    /// Parses the rows of the sheet in order: the first row that does not
    /// parse, or repeats the id of an earlier row, stops the load.
    pub fn load(rows: Vec<PathNodeCells>) -> (r: Result<PathNodeTable, Error>)
        requires
            rows@.len() + FIRST_ROW <= usize::MAX,
        ensures
            load_result(path_node_parsed(rows@), PATH_NODE_WORKBOOK, PATH_NODE_SHEET, "PathNode", match r { Ok(t) => Ok(t.rows@), Err(e) => Err(e) }),
    {
        let parsed = parse_path_node_rows(rows);
        match load_rows(parsed, PATH_NODE_WORKBOOK, PATH_NODE_SHEET, "PathNode") {
            Ok(rows) => Ok(PathNodeTable { rows }),
            Err(e) => Err(e),
        }
    }

    /// The first row with id `id`.
    pub fn get(&self, id: DataId) -> (r: Option<&PathNode>)
        ensures
            match r {
                Some(x) => exists|i: int| 0 <= i < self.rows@.len() && self.rows@[i].0 == id && self.rows@[i].1 == *x
                    && forall|j: int| 0 <= j < i ==> self.rows@[j].0 != id,
                None => forall|i: int| 0 <= i < self.rows@.len() ==> self.rows@[i].0 != id,
            },
    {
        find_row(&self.rows, id)
    }
}

/// The workbook of the Talent rows.
pub const TALENT_WORKBOOK: &'static str = "talent.ods";
/// The sheet of the Talent rows.
pub const TALENT_SHEET: &'static str = "Talent";

/// A row of the Talent table.
#[derive(Debug)]
pub struct Talent {
    pub id: DataId,
}

/// A Talent row as read from its sheet: its number of cells, and what
/// parsing gave for the cell of each field: `id` from column 0.
#[derive(Debug)]
pub struct TalentCells {
    pub count: usize,
    pub id: Result<DataId, ParseError>,
}

/// The row of the cells: too few cells, or the first field, in column
/// order, whose cell does not parse, refused with the field's name.
pub open spec fn talent_parse_spec(row: TalentCells) -> Result<(DataId, Talent), (&'static str, ParseError)> {
    if row.count < 2 {
        Err(("", ParseError::InvalidColumnCount { expected: 2, actual: row.count }))
    } else if row.id is Err {
        Err(("id", row.id->Err_0))
    } else {
        Ok((row.id->Ok_0, Talent { id: row.id->Ok_0 }))
    }
}

impl Talent {
    /// The row of the cells: too few cells, or the first field, in column
    /// order, whose cell does not parse, is refused with the field's name.
    pub fn parse(row: TalentCells) -> (r: Result<(DataId, Talent), (&'static str, ParseError)>)
        ensures
            r == talent_parse_spec(row),
    {
        if row.count < 2 {
            return Err(("", ParseError::InvalidColumnCount { expected: 2, actual: row.count }));
        }
        let id = match row.id {
            Ok(v) => v,
            Err(e) => {
                return Err(("id", e));
            },
        };
        Ok((id, Talent { id }))
    }
}

/// The Talent rows by id, in the order they were read.
#[derive(Debug)]
pub struct TalentTable {
    pub rows: Vec<(DataId, Talent)>,
}

/// The parse results of a sheet's Talent rows.
pub open spec fn talent_parsed(rows: Seq<TalentCells>) -> Seq<Result<(DataId, Talent), (&'static str, ParseError)>> {
    rows.map_values(|c: TalentCells| talent_parse_spec(c))
}

/// Parses the rows of a sheet, in order.
fn parse_talent_rows(rows: Vec<TalentCells>) -> (r: Vec<Result<(DataId, Talent), (&'static str, ParseError)>>)
    ensures
        r@ == talent_parsed(rows@),
{
    let ghost all = rows@;
    let mut rows = rows;
    let mut parsed: Vec<Result<(DataId, Talent), (&'static str, ParseError)>> = Vec::new();
    let ghost mut done: Seq<TalentCells> = Seq::empty();
    while rows.len() > 0
        invariant
            done + rows@ == all,
            parsed@ == talent_parsed(done),
        decreases rows.len(),
    {
        let ghost before = rows@;
        let row = rows.remove(0);
        let p = Talent::parse(row);
        proof {
            assert(talent_parsed(done.push(row)) =~= talent_parsed(done).push(p));
            assert(done.push(row) + rows@ =~= done + before);
        }
        parsed.push(p);
        proof {
            done = done.push(row);
        }
    }
    assert(done =~= all);
    parsed
}

impl TalentTable {
    /// Parses the rows of the sheet in order: the first row that does not
    /// parse, or repeats the id of an earlier row, stops the load.
    pub fn load(rows: Vec<TalentCells>) -> (r: Result<TalentTable, Error>)
        requires
            rows@.len() + FIRST_ROW <= usize::MAX,
        ensures
            load_result(talent_parsed(rows@), TALENT_WORKBOOK, TALENT_SHEET, "Talent", match r { Ok(t) => Ok(t.rows@), Err(e) => Err(e) }),
    {
        let parsed = parse_talent_rows(rows);
        match load_rows(parsed, TALENT_WORKBOOK, TALENT_SHEET, "Talent") {
            Ok(rows) => Ok(TalentTable { rows }),
            Err(e) => Err(e),
        }
    }

    /// The first row with id `id`.
    pub fn get(&self, id: DataId) -> (r: Option<&Talent>)
        ensures
            match r {
                Some(x) => exists|i: int| 0 <= i < self.rows@.len() && self.rows@[i].0 == id && self.rows@[i].1 == *x
                    && forall|j: int| 0 <= j < i ==> self.rows@[j].0 != id,
                None => forall|i: int| 0 <= i < self.rows@.len() ==> self.rows@[i].0 != id,
            },
    {
        find_row(&self.rows, id)
    }
}

/// The workbook of the RandomBox rows.
pub const RANDOM_BOX_WORKBOOK: &'static str = "random_box.ods";
/// The sheet of the RandomBox rows.
pub const RANDOM_BOX_SHEET: &'static str = "RandomBox";

/// A row of the RandomBox table.
#[derive(Debug)]
pub struct RandomBox {
    pub id: DataId,
    pub name: String,
    pub items: Vec<(DataId, u16)>,
}

/// A RandomBox row as read from its sheet: its number of cells, and what
/// parsing gave for the cell of each field: `id` from column 0, `name` from column 1, `items` from column 2.
#[derive(Debug)]
pub struct RandomBoxCells {
    pub count: usize,
    pub id: Result<DataId, ParseError>,
    pub name: Result<String, ParseError>,
    pub items: Result<Vec<(DataId, u16)>, ParseError>,
}

/// The row of the cells: too few cells, or the first field, in column
/// order, whose cell does not parse, refused with the field's name.
pub open spec fn random_box_parse_spec(row: RandomBoxCells) -> Result<(DataId, RandomBox), (&'static str, ParseError)> {
    if row.count < 3 {
        Err(("", ParseError::InvalidColumnCount { expected: 3, actual: row.count }))
    } else if row.id is Err {
        Err(("id", row.id->Err_0))
    } else if row.name is Err {
        Err(("name", row.name->Err_0))
    } else if row.items is Err {
        Err(("items", row.items->Err_0))
    } else {
        Ok((row.id->Ok_0, RandomBox { id: row.id->Ok_0, name: row.name->Ok_0, items: row.items->Ok_0 }))
    }
}

impl RandomBox {
    /// The row of the cells: too few cells, or the first field, in column
    /// order, whose cell does not parse, is refused with the field's name.
    pub fn parse(row: RandomBoxCells) -> (r: Result<(DataId, RandomBox), (&'static str, ParseError)>)
        ensures
            r == random_box_parse_spec(row),
    {
        if row.count < 3 {
            return Err(("", ParseError::InvalidColumnCount { expected: 3, actual: row.count }));
        }
        let id = match row.id {
            Ok(v) => v,
            Err(e) => {
                return Err(("id", e));
            },
        };
        let name = match row.name {
            Ok(v) => v,
            Err(e) => {
                return Err(("name", e));
            },
        };
        let items = match row.items {
            Ok(v) => v,
            Err(e) => {
                return Err(("items", e));
            },
        };
        Ok((id, RandomBox { id, name, items }))
    }
}

/// The RandomBox rows by id, in the order they were read.
#[derive(Debug)]
pub struct RandomBoxTable {
    pub rows: Vec<(DataId, RandomBox)>,
}

/// The parse results of a sheet's RandomBox rows.
pub open spec fn random_box_parsed(rows: Seq<RandomBoxCells>) -> Seq<Result<(DataId, RandomBox), (&'static str, ParseError)>> {
    rows.map_values(|c: RandomBoxCells| random_box_parse_spec(c))
}

/// Parses the rows of a sheet, in order.
fn parse_random_box_rows(rows: Vec<RandomBoxCells>) -> (r: Vec<Result<(DataId, RandomBox), (&'static str, ParseError)>>)
    ensures
        r@ == random_box_parsed(rows@),
{
    let ghost all = rows@;
    let mut rows = rows;
    let mut parsed: Vec<Result<(DataId, RandomBox), (&'static str, ParseError)>> = Vec::new();
    let ghost mut done: Seq<RandomBoxCells> = Seq::empty();
    while rows.len() > 0
        invariant
            done + rows@ == all,
            parsed@ == random_box_parsed(done),
        decreases rows.len(),
    {
        let ghost before = rows@;
        let row = rows.remove(0);
        let p = RandomBox::parse(row);
        proof {
            assert(random_box_parsed(done.push(row)) =~= random_box_parsed(done).push(p));
            assert(done.push(row) + rows@ =~= done + before);
        }
        parsed.push(p);
        proof {
            done = done.push(row);
        }
    }
    assert(done =~= all);
    parsed
}

impl RandomBoxTable {
    /// Parses the rows of the sheet in order: the first row that does not
    /// parse, or repeats the id of an earlier row, stops the load.
    pub fn load(rows: Vec<RandomBoxCells>) -> (r: Result<RandomBoxTable, Error>)
        requires
            rows@.len() + FIRST_ROW <= usize::MAX,
        ensures
            load_result(random_box_parsed(rows@), RANDOM_BOX_WORKBOOK, RANDOM_BOX_SHEET, "RandomBox", match r { Ok(t) => Ok(t.rows@), Err(e) => Err(e) }),
    {
        let parsed = parse_random_box_rows(rows);
        match load_rows(parsed, RANDOM_BOX_WORKBOOK, RANDOM_BOX_SHEET, "RandomBox") {
            Ok(rows) => Ok(RandomBoxTable { rows }),
            Err(e) => Err(e),
        }
    }

    /// The first row with id `id`.
    pub fn get(&self, id: DataId) -> (r: Option<&RandomBox>)
        ensures
            match r {
                Some(x) => exists|i: int| 0 <= i < self.rows@.len() && self.rows@[i].0 == id && self.rows@[i].1 == *x
                    && forall|j: int| 0 <= j < i ==> self.rows@[j].0 != id,
                None => forall|i: int| 0 <= i < self.rows@.len() ==> self.rows@[i].0 != id,
            },
    {
        find_row(&self.rows, id)
    }
}

/// The workbook of the GenericSkill rows.
pub const GENERIC_SKILL_WORKBOOK: &'static str = "skill.ods";
/// The sheet of the GenericSkill rows.
pub const GENERIC_SKILL_SHEET: &'static str = "GenericSkill";

/// A row of the GenericSkill table.
#[derive(Debug)]
pub struct GenericSkill {
    pub id: DataId,
    pub effects: Vec<DataId>,
    pub costs: Vec<String>,
}

/// A GenericSkill row as read from its sheet: its number of cells, and what
/// parsing gave for the cell of each field: `id` from column 0, `effects` from column 2, `costs` from column 3.
#[derive(Debug)]
pub struct GenericSkillCells {
    pub count: usize,
    pub id: Result<DataId, ParseError>,
    pub effects: Result<Vec<DataId>, ParseError>,
    pub costs: Result<Vec<String>, ParseError>,
}

/// The row of the cells: too few cells, or the first field, in column
/// order, whose cell does not parse, refused with the field's name.
pub open spec fn generic_skill_parse_spec(row: GenericSkillCells) -> Result<(DataId, GenericSkill), (&'static str, ParseError)> {
    if row.count < 4 {
        Err(("", ParseError::InvalidColumnCount { expected: 4, actual: row.count }))
    } else if row.id is Err {
        Err(("id", row.id->Err_0))
    } else if row.effects is Err {
        Err(("effects", row.effects->Err_0))
    } else if row.costs is Err {
        Err(("costs", row.costs->Err_0))
    } else {
        Ok((row.id->Ok_0, GenericSkill { id: row.id->Ok_0, effects: row.effects->Ok_0, costs: row.costs->Ok_0 }))
    }
}

impl GenericSkill {
    /// The row of the cells: too few cells, or the first field, in column
    /// order, whose cell does not parse, is refused with the field's name.
    pub fn parse(row: GenericSkillCells) -> (r: Result<(DataId, GenericSkill), (&'static str, ParseError)>)
        ensures
            r == generic_skill_parse_spec(row),
    {
        if row.count < 4 {
            return Err(("", ParseError::InvalidColumnCount { expected: 4, actual: row.count }));
        }
        let id = match row.id {
            Ok(v) => v,
            Err(e) => {
                return Err(("id", e));
            },
        };
        let effects = match row.effects {
            Ok(v) => v,
            Err(e) => {
                return Err(("effects", e));
            },
        };
        let costs = match row.costs {
            Ok(v) => v,
            Err(e) => {
                return Err(("costs", e));
            },
        };
        Ok((id, GenericSkill { id, effects, costs }))
    }
}

/// The GenericSkill rows by id, in the order they were read.
#[derive(Debug)]
pub struct GenericSkillTable {
    pub rows: Vec<(DataId, GenericSkill)>,
}

/// The parse results of a sheet's GenericSkill rows.
pub open spec fn generic_skill_parsed(rows: Seq<GenericSkillCells>) -> Seq<Result<(DataId, GenericSkill), (&'static str, ParseError)>> {
    rows.map_values(|c: GenericSkillCells| generic_skill_parse_spec(c))
}

/// Parses the rows of a sheet, in order.
fn parse_generic_skill_rows(rows: Vec<GenericSkillCells>) -> (r: Vec<Result<(DataId, GenericSkill), (&'static str, ParseError)>>)
    ensures
        r@ == generic_skill_parsed(rows@),
{
    let ghost all = rows@;
    let mut rows = rows;
    let mut parsed: Vec<Result<(DataId, GenericSkill), (&'static str, ParseError)>> = Vec::new();
    let ghost mut done: Seq<GenericSkillCells> = Seq::empty();
    while rows.len() > 0
        invariant
            done + rows@ == all,
            parsed@ == generic_skill_parsed(done),
        decreases rows.len(),
    {
        let ghost before = rows@;
        let row = rows.remove(0);
        let p = GenericSkill::parse(row);
        proof {
            assert(generic_skill_parsed(done.push(row)) =~= generic_skill_parsed(done).push(p));
            assert(done.push(row) + rows@ =~= done + before);
        }
        parsed.push(p);
        proof {
            done = done.push(row);
        }
    }
    assert(done =~= all);
    parsed
}

impl GenericSkillTable {
    /// Parses the rows of the sheet in order: the first row that does not
    /// parse, or repeats the id of an earlier row, stops the load.
    pub fn load(rows: Vec<GenericSkillCells>) -> (r: Result<GenericSkillTable, Error>)
        requires
            rows@.len() + FIRST_ROW <= usize::MAX,
        ensures
            load_result(generic_skill_parsed(rows@), GENERIC_SKILL_WORKBOOK, GENERIC_SKILL_SHEET, "GenericSkill", match r { Ok(t) => Ok(t.rows@), Err(e) => Err(e) }),
    {
        let parsed = parse_generic_skill_rows(rows);
        match load_rows(parsed, GENERIC_SKILL_WORKBOOK, GENERIC_SKILL_SHEET, "GenericSkill") {
            Ok(rows) => Ok(GenericSkillTable { rows }),
            Err(e) => Err(e),
        }
    }

    /// The first row with id `id`.
    pub fn get(&self, id: DataId) -> (r: Option<&GenericSkill>)
        ensures
            match r {
                Some(x) => exists|i: int| 0 <= i < self.rows@.len() && self.rows@[i].0 == id && self.rows@[i].1 == *x
                    && forall|j: int| 0 <= j < i ==> self.rows@[j].0 != id,
                None => forall|i: int| 0 <= i < self.rows@.len() ==> self.rows@[i].0 != id,
            },
    {
        find_row(&self.rows, id)
    }
}

/// The workbook of the ScriptedSkill rows.
pub const SCRIPTED_SKILL_WORKBOOK: &'static str = "skill.ods";
/// The sheet of the ScriptedSkill rows.
pub const SCRIPTED_SKILL_SHEET: &'static str = "ScriptedSkill";

/// A row of the ScriptedSkill table.
#[derive(Debug)]
pub struct ScriptedSkill {
    pub id: DataId,
    /// The skill's attributes, as JSON text.
    pub attributes: String,
}

/// A ScriptedSkill row as read from its sheet: its number of cells, and what
/// parsing gave for the cell of each field: `id` from column 0, `attributes` from column 2.
#[derive(Debug)]
pub struct ScriptedSkillCells {
    pub count: usize,
    pub id: Result<DataId, ParseError>,
    pub attributes: Result<String, ParseError>,
}

/// The row of the cells: too few cells, or the first field, in column
/// order, whose cell does not parse, refused with the field's name.
pub open spec fn scripted_skill_parse_spec(row: ScriptedSkillCells) -> Result<(DataId, ScriptedSkill), (&'static str, ParseError)> {
    if row.count < 3 {
        Err(("", ParseError::InvalidColumnCount { expected: 3, actual: row.count }))
    } else if row.id is Err {
        Err(("id", row.id->Err_0))
    } else if row.attributes is Err {
        Err(("attributes", row.attributes->Err_0))
    } else {
        Ok((row.id->Ok_0, ScriptedSkill { id: row.id->Ok_0, attributes: row.attributes->Ok_0 }))
    }
}

impl ScriptedSkill {
    /// The row of the cells: too few cells, or the first field, in column
    /// order, whose cell does not parse, is refused with the field's name.
    pub fn parse(row: ScriptedSkillCells) -> (r: Result<(DataId, ScriptedSkill), (&'static str, ParseError)>)
        ensures
            r == scripted_skill_parse_spec(row),
    {
        if row.count < 3 {
            return Err(("", ParseError::InvalidColumnCount { expected: 3, actual: row.count }));
        }
        let id = match row.id {
            Ok(v) => v,
            Err(e) => {
                return Err(("id", e));
            },
        };
        let attributes = match row.attributes {
            Ok(v) => v,
            Err(e) => {
                return Err(("attributes", e));
            },
        };
        Ok((id, ScriptedSkill { id, attributes }))
    }
}

/// The ScriptedSkill rows by id, in the order they were read.
#[derive(Debug)]
pub struct ScriptedSkillTable {
    pub rows: Vec<(DataId, ScriptedSkill)>,
}

/// The parse results of a sheet's ScriptedSkill rows.
pub open spec fn scripted_skill_parsed(rows: Seq<ScriptedSkillCells>) -> Seq<Result<(DataId, ScriptedSkill), (&'static str, ParseError)>> {
    rows.map_values(|c: ScriptedSkillCells| scripted_skill_parse_spec(c))
}

/// Parses the rows of a sheet, in order.
fn parse_scripted_skill_rows(rows: Vec<ScriptedSkillCells>) -> (r: Vec<Result<(DataId, ScriptedSkill), (&'static str, ParseError)>>)
    ensures
        r@ == scripted_skill_parsed(rows@),
{
    let ghost all = rows@;
    let mut rows = rows;
    let mut parsed: Vec<Result<(DataId, ScriptedSkill), (&'static str, ParseError)>> = Vec::new();
    let ghost mut done: Seq<ScriptedSkillCells> = Seq::empty();
    while rows.len() > 0
        invariant
            done + rows@ == all,
            parsed@ == scripted_skill_parsed(done),
        decreases rows.len(),
    {
        let ghost before = rows@;
        let row = rows.remove(0);
        let p = ScriptedSkill::parse(row);
        proof {
            assert(scripted_skill_parsed(done.push(row)) =~= scripted_skill_parsed(done).push(p));
            assert(done.push(row) + rows@ =~= done + before);
        }
        parsed.push(p);
        proof {
            done = done.push(row);
        }
    }
    assert(done =~= all);
    parsed
}

impl ScriptedSkillTable {
    /// Parses the rows of the sheet in order: the first row that does not
    /// parse, or repeats the id of an earlier row, stops the load.
    pub fn load(rows: Vec<ScriptedSkillCells>) -> (r: Result<ScriptedSkillTable, Error>)
        requires
            rows@.len() + FIRST_ROW <= usize::MAX,
        ensures
            load_result(scripted_skill_parsed(rows@), SCRIPTED_SKILL_WORKBOOK, SCRIPTED_SKILL_SHEET, "ScriptedSkill", match r { Ok(t) => Ok(t.rows@), Err(e) => Err(e) }),
    {
        let parsed = parse_scripted_skill_rows(rows);
        match load_rows(parsed, SCRIPTED_SKILL_WORKBOOK, SCRIPTED_SKILL_SHEET, "ScriptedSkill") {
            Ok(rows) => Ok(ScriptedSkillTable { rows }),
            Err(e) => Err(e),
        }
    }

    /// The first row with id `id`.
    pub fn get(&self, id: DataId) -> (r: Option<&ScriptedSkill>)
        ensures
            match r {
                Some(x) => exists|i: int| 0 <= i < self.rows@.len() && self.rows@[i].0 == id && self.rows@[i].1 == *x
                    && forall|j: int| 0 <= j < i ==> self.rows@[j].0 != id,
                None => forall|i: int| 0 <= i < self.rows@.len() ==> self.rows@[i].0 != id,
            },
    {
        find_row(&self.rows, id)
    }
}

/// The workbook of the LinkTest rows.
pub const LINK_TEST_WORKBOOK: &'static str = "link_test.ods";
/// The sheet of the LinkTest rows.
pub const LINK_TEST_SHEET: &'static str = "LinkTest";

/// A row of the LinkTest table.
#[derive(Debug)]
pub struct LinkTest {
    pub id: DataId,
    pub item_link: DataId,
    pub optional_item_link: Option<DataId>,
    pub multi_item_link: Vec<DataId>,
    pub exclusive_max5_item_link: DataId,
}

/// A LinkTest row as read from its sheet: its number of cells, and what
/// parsing gave for the cell of each field: `id` from column 0, `item_link` from column 1, `optional_item_link` from column 2, `multi_item_link` from column 3, `exclusive_max5_item_link` from column 5.
#[derive(Debug)]
pub struct LinkTestCells {
    pub count: usize,
    pub id: Result<DataId, ParseError>,
    pub item_link: Result<DataId, ParseError>,
    pub optional_item_link: Result<Option<DataId>, ParseError>,
    pub multi_item_link: Result<Vec<DataId>, ParseError>,
    pub exclusive_max5_item_link: Result<DataId, ParseError>,
}

/// The row of the cells: too few cells, or the first field, in column
/// order, whose cell does not parse, refused with the field's name.
pub open spec fn link_test_parse_spec(row: LinkTestCells) -> Result<(DataId, LinkTest), (&'static str, ParseError)> {
    if row.count < 6 {
        Err(("", ParseError::InvalidColumnCount { expected: 6, actual: row.count }))
    } else if row.id is Err {
        Err(("id", row.id->Err_0))
    } else if row.item_link is Err {
        Err(("item_link", row.item_link->Err_0))
    } else if row.optional_item_link is Err {
        Err(("optional_item_link", row.optional_item_link->Err_0))
    } else if row.multi_item_link is Err {
        Err(("multi_item_link", row.multi_item_link->Err_0))
    } else if row.exclusive_max5_item_link is Err {
        Err(("exclusive_max5_item_link", row.exclusive_max5_item_link->Err_0))
    } else {
        Ok((row.id->Ok_0, LinkTest { id: row.id->Ok_0, item_link: row.item_link->Ok_0, optional_item_link: row.optional_item_link->Ok_0, multi_item_link: row.multi_item_link->Ok_0, exclusive_max5_item_link: row.exclusive_max5_item_link->Ok_0 }))
    }
}

impl LinkTest {
    /// The row of the cells: too few cells, or the first field, in column
    /// order, whose cell does not parse, is refused with the field's name.
    pub fn parse(row: LinkTestCells) -> (r: Result<(DataId, LinkTest), (&'static str, ParseError)>)
        ensures
            r == link_test_parse_spec(row),
    {
        if row.count < 6 {
            return Err(("", ParseError::InvalidColumnCount { expected: 6, actual: row.count }));
        }
        let id = match row.id {
            Ok(v) => v,
            Err(e) => {
                return Err(("id", e));
            },
        };
        let item_link = match row.item_link {
            Ok(v) => v,
            Err(e) => {
                return Err(("item_link", e));
            },
        };
        let optional_item_link = match row.optional_item_link {
            Ok(v) => v,
            Err(e) => {
                return Err(("optional_item_link", e));
            },
        };
        let multi_item_link = match row.multi_item_link {
            Ok(v) => v,
            Err(e) => {
                return Err(("multi_item_link", e));
            },
        };
        let exclusive_max5_item_link = match row.exclusive_max5_item_link {
            Ok(v) => v,
            Err(e) => {
                return Err(("exclusive_max5_item_link", e));
            },
        };
        Ok((id, LinkTest { id, item_link, optional_item_link, multi_item_link, exclusive_max5_item_link }))
    }
}

/// The LinkTest rows by id, in the order they were read.
#[derive(Debug)]
pub struct LinkTestTable {
    pub rows: Vec<(DataId, LinkTest)>,
}

/// The parse results of a sheet's LinkTest rows.
pub open spec fn link_test_parsed(rows: Seq<LinkTestCells>) -> Seq<Result<(DataId, LinkTest), (&'static str, ParseError)>> {
    rows.map_values(|c: LinkTestCells| link_test_parse_spec(c))
}

/// Parses the rows of a sheet, in order.
fn parse_link_test_rows(rows: Vec<LinkTestCells>) -> (r: Vec<Result<(DataId, LinkTest), (&'static str, ParseError)>>)
    ensures
        r@ == link_test_parsed(rows@),
{
    let ghost all = rows@;
    let mut rows = rows;
    let mut parsed: Vec<Result<(DataId, LinkTest), (&'static str, ParseError)>> = Vec::new();
    let ghost mut done: Seq<LinkTestCells> = Seq::empty();
    while rows.len() > 0
        invariant
            done + rows@ == all,
            parsed@ == link_test_parsed(done),
        decreases rows.len(),
    {
        let ghost before = rows@;
        let row = rows.remove(0);
        let p = LinkTest::parse(row);
        proof {
            assert(link_test_parsed(done.push(row)) =~= link_test_parsed(done).push(p));
            assert(done.push(row) + rows@ =~= done + before);
        }
        parsed.push(p);
        proof {
            done = done.push(row);
        }
    }
    assert(done =~= all);
    parsed
}

/// The type name that link constraints report.
pub const ITEM_LINK_TYPE: &'static str = "Link<crate::item::Item>";

/// The link that must be unique among LinkTest rows and at most five.
pub open spec fn exclusive_link(p: Result<(DataId, LinkTest), (&'static str, ParseError)>) -> DataId {
    match p {
        Ok((_, row)) => row.exclusive_max5_item_link,
        Err(_) => 0,
    }
}

/// The first `k` LinkTest rows are accepted: they parsed, their ids differ,
/// their exclusive links differ and are at most five.
pub open spec fn link_test_accepted(parsed: Seq<Result<(DataId, LinkTest), (&'static str, ParseError)>>, k: int) -> bool {
    &&& accepted_prefix(parsed, k)
    &&& forall|a: int, b: int| 0 <= a < b < k ==> exclusive_link(#[trigger] parsed[a]) != exclusive_link(#[trigger] parsed[b])
    &&& forall|j: int| 0 <= j < k ==> exclusive_link(#[trigger] parsed[j]) <= 5
}

/// LinkTest row `i` is refused: it did not parse, repeats an id or an
/// exclusive link of an earlier row, or links above five.
pub open spec fn link_test_refused_at(parsed: Seq<Result<(DataId, LinkTest), (&'static str, ParseError)>>, i: int) -> bool {
    ||| refused_at(parsed, i)
    ||| exists|j: int| 0 <= j < i && exclusive_link(#[trigger] parsed[j]) == exclusive_link(parsed[i])
    ||| exclusive_link(parsed[i]) > 5
}

/// The error of refusing LinkTest row `i`, checked in this order: parsing,
/// the id, the uniqueness of the exclusive link, its maximum.
pub open spec fn link_test_refusal(parsed: Seq<Result<(DataId, LinkTest), (&'static str, ParseError)>>, i: int, e: Error) -> bool {
    if refused_at(parsed, i) {
        e == refusal(parsed, i, LINK_TEST_WORKBOOK, LINK_TEST_SHEET, "LinkTest")
    } else if exists|j: int| 0 <= j < i && exclusive_link(#[trigger] parsed[j]) == exclusive_link(parsed[i]) {
        e matches Error::Constraint { workbook, sheet, row, column, error: ConstraintError::Unique { row_type, value } }
            && workbook == LINK_TEST_WORKBOOK && sheet == LINK_TEST_SHEET && row == i + FIRST_ROW
            && column == "exclusive_max5_item_link" && row_type == ITEM_LINK_TYPE
            && value@ == decimal(exclusive_link(parsed[i]) as nat)
    } else {
        e matches Error::Constraint { workbook, sheet, row, column, error: ConstraintError::Max { row_type, expected, actual } }
            && workbook == LINK_TEST_WORKBOOK && sheet == LINK_TEST_SHEET && row == i + FIRST_ROW
            && column == "exclusive_max5_item_link" && row_type == ITEM_LINK_TYPE
            && expected@ == "5"@ && actual@ == decimal(exclusive_link(parsed[i]) as nat)
    }
}

impl LinkTestTable {
    /// Parses the rows of the sheet in order: the first row that does not
    /// parse, repeats the id of an earlier row, repeats the exclusive link of
    /// an earlier row or links above five stops the load.
    pub fn load(rows: Vec<LinkTestCells>) -> (r: Result<LinkTestTable, Error>)
        requires
            rows@.len() + FIRST_ROW <= usize::MAX,
        ensures
            match r {
                Ok(t) => {
                    let parsed = link_test_parsed(rows@);
                    link_test_accepted(parsed, parsed.len() as int) && t.rows@ == accepted_rows(parsed)
                },
                Err(e) => {
                    let parsed = link_test_parsed(rows@);
                    exists|i: int| 0 <= i < parsed.len() && link_test_accepted(parsed, i) && link_test_refused_at(parsed, i)
                        && link_test_refusal(parsed, i, e)
                },
            },
    {
        let parsed = parse_link_test_rows(rows);
        let ghost all = parsed@;
        let mut rest = parsed;
        let mut accepted: Vec<(DataId, LinkTest)> = Vec::new();
        let mut index: usize = FIRST_ROW;
        while rest.len() > 0
            invariant
                all.len() + FIRST_ROW <= usize::MAX,
                all == link_test_parsed(rows@),
                accepted@.len() + rest@.len() == all.len(),
                index == accepted@.len() + FIRST_ROW,
                rest@ == all.subrange(accepted@.len() as int, all.len() as int),
                link_test_accepted(all, accepted@.len() as int),
                accepted@ == accepted_rows(all).take(accepted@.len() as int),
            decreases rest.len(),
        {
            let ghost k = accepted@.len() as int;
            let p = rest.remove(0);
            assert(p == all[k]);
            match p {
                Err((column, error)) => {
                    let e = Error::Parse { workbook: LINK_TEST_WORKBOOK, sheet: LINK_TEST_SHEET, row: index, column, error };
                    proof {
                        assert(refused_at(all, k));
                        assert(link_test_refused_at(all, k));
                        assert(link_test_refusal(all, k, e));
                    }
                    return Err(e);
                },
                Ok((id, row)) => {
                    assert forall|j: int| 0 <= j < k implies accepted@[j].0 == parsed_id(#[trigger] all[j])
                        && accepted@[j].1.exclusive_max5_item_link == exclusive_link(all[j]) by {
                        assert(accepted_rows(all)[j] == accepted@[j]);
                    }
                    if has_id(&accepted, id) {
                        let e = Error::DuplicateId { row_type: "LinkTest", id };
                        proof {
                            let j = choose|j: int| 0 <= j < accepted@.len() && accepted@[j].0 == id;
                            assert(parsed_id(all[j]) == parsed_id(all[k]));
                            assert(refused_at(all, k));
                            assert(link_test_refused_at(all, k));
                        }
                        return Err(e);
                    }
                    let link = row.exclusive_max5_item_link;
                    proof {
                        assert(!refused_at(all, k));
                    }
                    if has_link(&accepted, link) {
                        let e = Error::Constraint {
                            workbook: LINK_TEST_WORKBOOK,
                            sheet: LINK_TEST_SHEET,
                            row: index,
                            column: "exclusive_max5_item_link",
                            error: ConstraintError::Unique { row_type: ITEM_LINK_TYPE, value: decimal_string(link as u64) },
                        };
                        proof {
                            let j = choose|j: int| 0 <= j < accepted@.len() && accepted@[j].1.exclusive_max5_item_link == link;
                            assert(exclusive_link(all[j]) == exclusive_link(all[k]));
                            assert(link_test_refused_at(all, k));
                        }
                        return Err(e);
                    }
                    if link > 5 {
                        let e = Error::Constraint {
                            workbook: LINK_TEST_WORKBOOK,
                            sheet: LINK_TEST_SHEET,
                            row: index,
                            column: "exclusive_max5_item_link",
                            error: ConstraintError::Max { row_type: ITEM_LINK_TYPE, expected: decimal_string(5), actual: decimal_string(link as u64) },
                        };
                        proof {
                            reveal_strlit("5");
                            assert(decimal(5) =~= "5"@);
                            assert(link_test_refused_at(all, k));
                            assert(!(exists|j: int| 0 <= j < k && exclusive_link(#[trigger] all[j]) == exclusive_link(all[k])));
                        }
                        return Err(e);
                    }
                    accepted.push((id, row));
                    proof {
                        assert(accepted_rows(all).take(k + 1) =~= accepted_rows(all).take(k).push(all[k]->Ok_0));
                        assert forall|a: int, b: int| 0 <= a < b < k + 1 implies parsed_id(#[trigger] all[a]) != parsed_id(#[trigger] all[b]) by {
                            if b == k {
                                assert(accepted@[a].0 == parsed_id(all[a]));
                            }
                        }
                        assert forall|a: int, b: int| 0 <= a < b < k + 1 implies exclusive_link(#[trigger] all[a]) != exclusive_link(#[trigger] all[b]) by {
                            if b == k {
                                assert(accepted@[a].1.exclusive_max5_item_link == exclusive_link(all[a]));
                            }
                        }
                    }
                    index = index + 1;
                },
            }
        }
        assert(accepted_rows(all).take(all.len() as int) =~= accepted_rows(all));
        Ok(LinkTestTable { rows: accepted })
    }
}

/// Whether `link` is the exclusive link of one of `rows`.
fn has_link(rows: &Vec<(DataId, LinkTest)>, link: DataId) -> (r: bool)
    ensures
        r == exists|j: int| 0 <= j < rows@.len() && rows@[j].1.exclusive_max5_item_link == link,
{
    let mut i: usize = 0;
    while i < rows.len()
        invariant
            i <= rows@.len(),
            forall|j: int| 0 <= j < i ==> rows@[j].1.exclusive_max5_item_link != link,
        decreases rows.len() - i,
    {
        if rows[i].1.exclusive_max5_item_link == link {
            return true;
        }
        i = i + 1;
    }
    false
}

/// A row of the Item table: the row of a table that extends it, by id.
#[derive(Debug, Clone, Copy)]
pub enum Item {
    Equipment(DataId),
    RandomBox(DataId),
}

impl Item {
    /// The id of the row.
    pub fn id(&self) -> (r: DataId)
        ensures
            r == match *self {
                Item::Equipment(x) => x,
                Item::RandomBox(x) => x,
            },
    {
        match self {
            Item::Equipment(x) => *x,
            Item::RandomBox(x) => *x,
        }
    }
}

/// A row of the Equipment table: the row of a table that extends it, by id.
#[derive(Debug, Clone, Copy)]
pub enum Equipment {
    Weapon(DataId),
}

impl Equipment {
    /// The id of the row.
    pub fn id(&self) -> (r: DataId)
        ensures
            r == match *self {
                Equipment::Weapon(x) => x,
            },
    {
        match self {
            Equipment::Weapon(x) => *x,
        }
    }
}

/// A row of the Skill table: the row of a table that extends it, by id.
#[derive(Debug, Clone, Copy)]
pub enum Skill {
    GenericSkill(DataId),
    ScriptedSkill(DataId),
}

impl Skill {
    /// The id of the row.
    pub fn id(&self) -> (r: DataId)
        ensures
            r == match *self {
                Skill::GenericSkill(x) => x,
                Skill::ScriptedSkill(x) => x,
            },
    {
        match self {
            Skill::GenericSkill(x) => *x,
            Skill::ScriptedSkill(x) => *x,
        }
    }
}

/// `id` is the id of one of `rows`.
pub open spec fn holds_id<T>(rows: Seq<(DataId, T)>, id: DataId) -> bool {
    exists|j: int| 0 <= j < rows.len() && rows[j].0 == id
}

/// The rows after inserting `row` with `id`, and the outcome: a repeated id
/// is refused and leaves the rows as they were.
pub open spec fn inserted<T>(rows: Seq<(DataId, T)>, id: DataId, row: T, row_type: &'static str) -> (Seq<(DataId, T)>, Result<(), Error>) {
    if holds_id(rows, id) {
        (rows, Err(Error::DuplicateId { row_type, id }))
    } else {
        (rows.push((id, row)), Ok(()))
    }
}

/// Inserts `row` with `id` into `rows`, unless the id is taken.
fn insert_row<T>(rows: &mut Vec<(DataId, T)>, id: DataId, row: T, row_type: &'static str) -> (r: Result<(), Error>)
    ensures
        (final(rows)@, r) == inserted(old(rows)@, id, row, row_type),
{
    if has_id(rows, id) {
        return Err(Error::DuplicateId { row_type, id });
    }
    rows.push((id, row));
    Ok(())
}

/// The first row of `rows` with id `id`.
fn find_row<T>(rows: &Vec<(DataId, T)>, id: DataId) -> (r: Option<&T>)
    ensures
        match r {
            Some(x) => exists|i: int| 0 <= i < rows@.len() && rows@[i].0 == id && rows@[i].1 == *x
                && forall|j: int| 0 <= j < i ==> rows@[j].0 != id,
            None => forall|i: int| 0 <= i < rows@.len() ==> rows@[i].0 != id,
        },
{
    let mut i: usize = 0;
    while i < rows.len()
        invariant
            i <= rows@.len(),
            forall|j: int| 0 <= j < i ==> rows@[j].0 != id,
        decreases rows.len() - i,
    {
        if rows[i].0 == id {
            return Some(&rows[i].1);
        }
        i = i + 1;
    }
    None
}

/// The rows of the Item table.
#[derive(Debug)]
pub struct ItemTable {
    pub rows: Vec<(DataId, Item)>,
}

impl ItemTable {
    /// The first row with id `id`.
    pub fn get(&self, id: DataId) -> (r: Option<&Item>)
        ensures
            match r {
                Some(x) => exists|i: int| 0 <= i < self.rows@.len() && self.rows@[i].0 == id && self.rows@[i].1 == *x
                    && forall|j: int| 0 <= j < i ==> self.rows@[j].0 != id,
                None => forall|i: int| 0 <= i < self.rows@.len() ==> self.rows@[i].0 != id,
            },
    {
        find_row(&self.rows, id)
    }

    /// An empty table.
    pub fn init() -> (r: Self)
        ensures
            r.rows@.len() == 0,
    {
        ItemTable { rows: Vec::new() }
    }

    /// Adds a row, unless its id is taken.
    pub fn insert(&mut self, id: DataId, row: Item) -> (r: Result<(), Error>)
        ensures
            (final(self).rows@, r) == inserted(old(self).rows@, id, row, "Item"),
    {
        insert_row(&mut self.rows, id, row, "Item")
    }
}

/// The rows of the Equipment table and of the Item table after inserting an
/// Equipment row: it goes into the Equipment table, then into the Item table.
pub open spec fn equipment_inserted(equipment: Seq<(DataId, Equipment)>, items: Seq<(DataId, Item)>, id: DataId, row: Equipment)
    -> (Seq<(DataId, Equipment)>, Seq<(DataId, Item)>, Result<(), Error>)
{
    let (e, r) = inserted(equipment, id, row, "Equipment");
    if r is Err {
        (e, items, r)
    } else {
        let (i, r2) = inserted(items, id, Item::Equipment(id), "Item");
        (e, i, r2)
    }
}

/// The rows of the Equipment table.
#[derive(Debug)]
pub struct EquipmentTable {
    pub rows: Vec<(DataId, Equipment)>,
}

impl EquipmentTable {
    /// The first row with id `id`.
    pub fn get(&self, id: DataId) -> (r: Option<&Equipment>)
        ensures
            match r {
                Some(x) => exists|i: int| 0 <= i < self.rows@.len() && self.rows@[i].0 == id && self.rows@[i].1 == *x
                    && forall|j: int| 0 <= j < i ==> self.rows@[j].0 != id,
                None => forall|i: int| 0 <= i < self.rows@.len() ==> self.rows@[i].0 != id,
            },
    {
        find_row(&self.rows, id)
    }

    /// An empty table.
    pub fn init() -> (r: Self)
        ensures
            r.rows@.len() == 0,
    {
        EquipmentTable { rows: Vec::new() }
    }

    /// Adds a row, unless its id is taken, and then adds it to the Item table.
    pub fn insert(&mut self, items: &mut ItemTable, id: DataId, row: Equipment) -> (r: Result<(), Error>)
        ensures
            (final(self).rows@, final(items).rows@, r) == equipment_inserted(old(self).rows@, old(items).rows@, id, row),
    {
        insert_row(&mut self.rows, id, row, "Equipment")?;
        items.insert(id, Item::Equipment(id))
    }
}

/// The rows of the Skill table.
#[derive(Debug)]
pub struct SkillTable {
    pub rows: Vec<(DataId, Skill)>,
}

impl SkillTable {
    /// The first row with id `id`.
    pub fn get(&self, id: DataId) -> (r: Option<&Skill>)
        ensures
            match r {
                Some(x) => exists|i: int| 0 <= i < self.rows@.len() && self.rows@[i].0 == id && self.rows@[i].1 == *x
                    && forall|j: int| 0 <= j < i ==> self.rows@[j].0 != id,
                None => forall|i: int| 0 <= i < self.rows@.len() ==> self.rows@[i].0 != id,
            },
    {
        find_row(&self.rows, id)
    }

    /// An empty table.
    pub fn init() -> (r: Self)
        ensures
            r.rows@.len() == 0,
    {
        SkillTable { rows: Vec::new() }
    }

    /// Adds a row, unless its id is taken.
    pub fn insert(&mut self, id: DataId, row: Skill) -> (r: Result<(), Error>)
        ensures
            (final(self).rows@, r) == inserted(old(self).rows@, id, row, "Skill"),
    {
        insert_row(&mut self.rows, id, row, "Skill")
    }
}

/// The ids of rows.
pub open spec fn row_ids<T>(rows: Seq<(DataId, T)>) -> Seq<DataId> {
    rows.map_values(|x: (DataId, T)| x.0)
}

/// The Equipment and Item rows after adding the first `m` weapons of `ids`,
/// one after another, and the outcome: the first refusal stops.
pub open spec fn weapons_registered(ids: Seq<DataId>, equipment: Seq<(DataId, Equipment)>, items: Seq<(DataId, Item)>, m: nat)
    -> (Seq<(DataId, Equipment)>, Seq<(DataId, Item)>, Result<(), Error>)
    decreases m,
{
    if m == 0 {
        (equipment, items, Ok(()))
    } else {
        let (e, i, r) = weapons_registered(ids, equipment, items, (m - 1) as nat);
        if r is Err {
            (e, i, r)
        } else {
            equipment_inserted(e, i, ids[m - 1], Equipment::Weapon(ids[m - 1]))
        }
    }
}

/// The rows of a table after adding the first `m` rows of `ids`, each made
/// by `make`, and the outcome: the first refusal stops.
pub open spec fn rows_registered<T>(ids: Seq<DataId>, rows: Seq<(DataId, T)>, make: spec_fn(DataId) -> T, row_type: &'static str, m: nat)
    -> (Seq<(DataId, T)>, Result<(), Error>)
    decreases m,
{
    if m == 0 {
        (rows, Ok(()))
    } else {
        let (t, r) = rows_registered(ids, rows, make, row_type, (m - 1) as nat);
        if r is Err {
            (t, r)
        } else {
            inserted(t, ids[m - 1], make(ids[m - 1]), row_type)
        }
    }
}

/// Registering weapons that succeeds adds every weapon, in order, to the
/// Equipment table and, as equipment, to the Item table, after the rows
/// they held.
pub proof fn lemma_weapons_registered(ids: Seq<DataId>, equipment: Seq<(DataId, Equipment)>, items: Seq<(DataId, Item)>, m: nat)
    requires
        m <= ids.len(),
        weapons_registered(ids, equipment, items, m).2 is Ok,
    ensures
        weapons_registered(ids, equipment, items, m).0
            == equipment + Seq::new(m, |k: int| (ids[k], Equipment::Weapon(ids[k]))),
        weapons_registered(ids, equipment, items, m).1
            == items + Seq::new(m, |k: int| (ids[k], Item::Equipment(ids[k]))),
    decreases m,
{
    if m == 0 {
        assert(equipment + Seq::new(0, |k: int| (ids[k], Equipment::Weapon(ids[k]))) =~= equipment);
        assert(items + Seq::new(0, |k: int| (ids[k], Item::Equipment(ids[k]))) =~= items);
    } else {
        let prev = weapons_registered(ids, equipment, items, (m - 1) as nat);
        if prev.2 is Err {
            assert(weapons_registered(ids, equipment, items, m) == prev);
        }
        lemma_weapons_registered(ids, equipment, items, (m - 1) as nat);
        let id = ids[m - 1];
        assert(equipment + Seq::new(m, |k: int| (ids[k], Equipment::Weapon(ids[k])))
            =~= (equipment + Seq::new((m - 1) as nat, |k: int| (ids[k], Equipment::Weapon(ids[k])))).push((id, Equipment::Weapon(id))));
        assert(items + Seq::new(m, |k: int| (ids[k], Item::Equipment(ids[k])))
            =~= (items + Seq::new((m - 1) as nat, |k: int| (ids[k], Item::Equipment(ids[k])))).push((id, Item::Equipment(id))));
    }
}

proof fn lemma_weapons_stop(ids: Seq<DataId>, equipment: Seq<(DataId, Equipment)>, items: Seq<(DataId, Item)>, m: nat, n: nat)
    requires
        m <= n,
        weapons_registered(ids, equipment, items, m).2 is Err,
    ensures
        weapons_registered(ids, equipment, items, n) == weapons_registered(ids, equipment, items, m),
    decreases n,
{
    if n > m {
        lemma_weapons_stop(ids, equipment, items, m, (n - 1) as nat);
    }
}

proof fn lemma_rows_stop<T>(ids: Seq<DataId>, rows: Seq<(DataId, T)>, make: spec_fn(DataId) -> T, row_type: &'static str, m: nat, n: nat)
    requires
        m <= n,
        rows_registered(ids, rows, make, row_type, m).1 is Err,
    ensures
        rows_registered(ids, rows, make, row_type, n) == rows_registered(ids, rows, make, row_type, m),
    decreases n,
{
    if n > m {
        lemma_rows_stop(ids, rows, make, row_type, m, (n - 1) as nat);
    }
}

impl WeaponTable {
    /// Adds every weapon, in order, to the Equipment table and so to the
    /// Item table; the first refused id stops.
    pub fn register(&self, equipment: &mut EquipmentTable, items: &mut ItemTable) -> (r: Result<(), Error>)
        ensures
            (final(equipment).rows@, final(items).rows@, r)
                == weapons_registered(row_ids(self.rows@), old(equipment).rows@, old(items).rows@, self.rows@.len()),
    {
        let ghost ids = row_ids(self.rows@);
        let mut k: usize = 0;
        while k < self.rows.len()
            invariant
                k <= self.rows@.len(),
                ids == row_ids(self.rows@),
                (equipment.rows@, items.rows@, Ok::<(), Error>(()))
                    == weapons_registered(ids, old(equipment).rows@, old(items).rows@, k as nat),
            decreases self.rows.len() - k,
        {
            let id = self.rows[k].0;
            let r = equipment.insert(items, id, Equipment::Weapon(id));
            if r.is_err() {
                proof {
                    lemma_weapons_stop(ids, old(equipment).rows@, old(items).rows@, (k + 1) as nat, self.rows@.len());
                }
                return r;
            }
            k = k + 1;
        }
        Ok(())
    }
}

impl RandomBoxTable {
    /// Adds every random box, in order, to the Item table; the first refused
    /// id stops.
    pub fn register(&self, items: &mut ItemTable) -> (r: Result<(), Error>)
        ensures
            (final(items).rows@, r)
                == rows_registered(row_ids(self.rows@), old(items).rows@, |x: DataId| Item::RandomBox(x), "Item", self.rows@.len()),
    {
        let ghost ids = row_ids(self.rows@);
        let mut k: usize = 0;
        while k < self.rows.len()
            invariant
                k <= self.rows@.len(),
                ids == row_ids(self.rows@),
                (items.rows@, Ok::<(), Error>(()))
                    == rows_registered(ids, old(items).rows@, |x: DataId| Item::RandomBox(x), "Item", k as nat),
            decreases self.rows.len() - k,
        {
            let id = self.rows[k].0;
            let r = items.insert(id, Item::RandomBox(id));
            if r.is_err() {
                proof {
                    lemma_rows_stop(ids, old(items).rows@, |x: DataId| Item::RandomBox(x), "Item", (k + 1) as nat, self.rows@.len());
                }
                return r;
            }
            k = k + 1;
        }
        Ok(())
    }
}

impl GenericSkillTable {
    /// Adds every generic skill, in order, to the Skill table; the first
    /// refused id stops.
    pub fn register(&self, skills: &mut SkillTable) -> (r: Result<(), Error>)
        ensures
            (final(skills).rows@, r)
                == rows_registered(row_ids(self.rows@), old(skills).rows@, |x: DataId| Skill::GenericSkill(x), "Skill", self.rows@.len()),
    {
        let ghost ids = row_ids(self.rows@);
        let mut k: usize = 0;
        while k < self.rows.len()
            invariant
                k <= self.rows@.len(),
                ids == row_ids(self.rows@),
                (skills.rows@, Ok::<(), Error>(()))
                    == rows_registered(ids, old(skills).rows@, |x: DataId| Skill::GenericSkill(x), "Skill", k as nat),
            decreases self.rows.len() - k,
        {
            let id = self.rows[k].0;
            let r = skills.insert(id, Skill::GenericSkill(id));
            if r.is_err() {
                proof {
                    lemma_rows_stop(ids, old(skills).rows@, |x: DataId| Skill::GenericSkill(x), "Skill", (k + 1) as nat, self.rows@.len());
                }
                return r;
            }
            k = k + 1;
        }
        Ok(())
    }
}


impl ScriptedSkillTable {
    /// Adds every scripted skill, in order, to the Skill table; the first
    /// refused id stops.
    pub fn register(&self, skills: &mut SkillTable) -> (r: Result<(), Error>)
        ensures
            (final(skills).rows@, r)
                == rows_registered(row_ids(self.rows@), old(skills).rows@, |x: DataId| Skill::ScriptedSkill(x), "Skill", self.rows@.len()),
    {
        let ghost ids = row_ids(self.rows@);
        let mut k: usize = 0;
        while k < self.rows.len()
            invariant
                k <= self.rows@.len(),
                ids == row_ids(self.rows@),
                (skills.rows@, Ok::<(), Error>(()))
                    == rows_registered(ids, old(skills).rows@, |x: DataId| Skill::ScriptedSkill(x), "Skill", k as nat),
            decreases self.rows.len() - k,
        {
            let id = self.rows[k].0;
            let r = skills.insert(id, Skill::ScriptedSkill(id));
            if r.is_err() {
                proof {
                    lemma_rows_stop(ids, old(skills).rows@, |x: DataId| Skill::ScriptedSkill(x), "Skill", (k + 1) as nat, self.rows@.len());
                }
                return r;
            }
            k = k + 1;
        }
        Ok(())
    }
}

/// A Weapon row parses exactly when it has at least 4 cells and the
/// cell of every field parses. The row it gives holds in each field the
/// value parsed from that field's own cell (`id` from column 0, `name` from column 1, `weight` from column 2, `damage` from column 3),
/// under the id of its id cell. A refused row names the field whose cell
/// failed, with that cell's error, or no field when cells are missing.
pub proof fn lemma_weapon_fields_from_cells(row: WeaponCells)
    ensures
        weapon_parse_spec(row) is Ok <==> row.count >= 4 && row.id is Ok && row.name is Ok && row.weight is Ok && row.damage is Ok,
        weapon_parse_spec(row) is Ok ==> {
            let (id, x) = weapon_parse_spec(row)->Ok_0;
            &&& id == row.id->Ok_0
            &&& x.id == row.id->Ok_0
            &&& x.name == row.name->Ok_0
            &&& x.weight == row.weight->Ok_0
            &&& x.damage == row.damage->Ok_0
        },
        weapon_parse_spec(row) is Err ==> {
            let (column, e) = weapon_parse_spec(row)->Err_0;
            ||| (row.count < 4 && column == "" && e == (ParseError::InvalidColumnCount { expected: 4, actual: row.count }))
            ||| (row.count >= 4 && column == "id" && row.id is Err && e == row.id->Err_0)
            ||| (row.count >= 4 && column == "name" && row.name is Err && e == row.name->Err_0)
            ||| (row.count >= 4 && column == "weight" && row.weight is Err && e == row.weight->Err_0)
            ||| (row.count >= 4 && column == "damage" && row.damage is Err && e == row.damage->Err_0)
        },
{
}

/// Loaded Weapon rows are the rows of the sheet, in order, each
/// holding the values of its own cells under the id of its id cell.
pub proof fn lemma_weapon_loaded_from_cells(rows: Seq<WeaponCells>, loaded: Seq<(DataId, Weapon)>)
    requires
        load_result(weapon_parsed(rows), WEAPON_WORKBOOK, WEAPON_SHEET, "Weapon", Ok(loaded)),
    ensures
        loaded.len() == rows.len(),
        forall|j: int| 0 <= j < loaded.len() ==> {
            &&& #[trigger] loaded[j].0 == rows[j].id->Ok_0
            &&& loaded[j].1.id == rows[j].id->Ok_0
            &&& loaded[j].1.name == rows[j].name->Ok_0
            &&& loaded[j].1.weight == rows[j].weight->Ok_0
            &&& loaded[j].1.damage == rows[j].damage->Ok_0
            &&& rows[j].count >= 4
        },
{
    let parsed = weapon_parsed(rows);
    lemma_loaded_ids_distinct(parsed, WEAPON_WORKBOOK, WEAPON_SHEET, "Weapon", loaded);
    assert forall|j: int| 0 <= j < loaded.len() implies {
        &&& #[trigger] loaded[j].0 == rows[j].id->Ok_0
        &&& loaded[j].1.id == rows[j].id->Ok_0
        &&& loaded[j].1.name == rows[j].name->Ok_0
        &&& loaded[j].1.weight == rows[j].weight->Ok_0
        &&& loaded[j].1.damage == rows[j].damage->Ok_0
        &&& rows[j].count >= 4
    } by {
        assert(parsed[j] is Ok);
        assert(loaded[j] == parsed[j]->Ok_0);
        lemma_weapon_fields_from_cells(rows[j]);
    }
}

/// A Path row parses exactly when it has at least 2 cells and the
/// cell of every field parses. The row it gives holds in each field the
/// value parsed from that field's own cell (`id` from column 0),
/// under the id of its id cell. A refused row names the field whose cell
/// failed, with that cell's error, or no field when cells are missing.
pub proof fn lemma_path_fields_from_cells(row: PathCells)
    ensures
        path_parse_spec(row) is Ok <==> row.count >= 2 && row.id is Ok,
        path_parse_spec(row) is Ok ==> {
            let (id, x) = path_parse_spec(row)->Ok_0;
            &&& id == row.id->Ok_0
            &&& x.id == row.id->Ok_0
        },
        path_parse_spec(row) is Err ==> {
            let (column, e) = path_parse_spec(row)->Err_0;
            ||| (row.count < 2 && column == "" && e == (ParseError::InvalidColumnCount { expected: 2, actual: row.count }))
            ||| (row.count >= 2 && column == "id" && row.id is Err && e == row.id->Err_0)
        },
{
}

/// Loaded Path rows are the rows of the sheet, in order, each
/// holding the values of its own cells under the id of its id cell.
pub proof fn lemma_path_loaded_from_cells(rows: Seq<PathCells>, loaded: Seq<(DataId, Path)>)
    requires
        load_result(path_parsed(rows), PATH_WORKBOOK, PATH_SHEET, "Path", Ok(loaded)),
    ensures
        loaded.len() == rows.len(),
        forall|j: int| 0 <= j < loaded.len() ==> {
            &&& #[trigger] loaded[j].0 == rows[j].id->Ok_0
            &&& loaded[j].1.id == rows[j].id->Ok_0
            &&& rows[j].count >= 2
        },
{
    let parsed = path_parsed(rows);
    lemma_loaded_ids_distinct(parsed, PATH_WORKBOOK, PATH_SHEET, "Path", loaded);
    assert forall|j: int| 0 <= j < loaded.len() implies {
        &&& #[trigger] loaded[j].0 == rows[j].id->Ok_0
        &&& loaded[j].1.id == rows[j].id->Ok_0
        &&& rows[j].count >= 2
    } by {
        assert(parsed[j] is Ok);
        assert(loaded[j] == parsed[j]->Ok_0);
        lemma_path_fields_from_cells(rows[j]);
    }
}

/// A PathNode row parses exactly when it has at least 2 cells and the
/// cell of every field parses. The row it gives holds in each field the
/// value parsed from that field's own cell (`id` from column 0),
/// under the id of its id cell. A refused row names the field whose cell
/// failed, with that cell's error, or no field when cells are missing.
pub proof fn lemma_path_node_fields_from_cells(row: PathNodeCells)
    ensures
        path_node_parse_spec(row) is Ok <==> row.count >= 2 && row.id is Ok,
        path_node_parse_spec(row) is Ok ==> {
            let (id, x) = path_node_parse_spec(row)->Ok_0;
            &&& id == row.id->Ok_0
            &&& x.id == row.id->Ok_0
        },
        path_node_parse_spec(row) is Err ==> {
            let (column, e) = path_node_parse_spec(row)->Err_0;
            ||| (row.count < 2 && column == "" && e == (ParseError::InvalidColumnCount { expected: 2, actual: row.count }))
            ||| (row.count >= 2 && column == "id" && row.id is Err && e == row.id->Err_0)
        },
{
}

/// Loaded PathNode rows are the rows of the sheet, in order, each
/// holding the values of its own cells under the id of its id cell.
pub proof fn lemma_path_node_loaded_from_cells(rows: Seq<PathNodeCells>, loaded: Seq<(DataId, PathNode)>)
    requires
        load_result(path_node_parsed(rows), PATH_NODE_WORKBOOK, PATH_NODE_SHEET, "PathNode", Ok(loaded)),
    ensures
        loaded.len() == rows.len(),
        forall|j: int| 0 <= j < loaded.len() ==> {
            &&& #[trigger] loaded[j].0 == rows[j].id->Ok_0
            &&& loaded[j].1.id == rows[j].id->Ok_0
            &&& rows[j].count >= 2
        },
{
    let parsed = path_node_parsed(rows);
    lemma_loaded_ids_distinct(parsed, PATH_NODE_WORKBOOK, PATH_NODE_SHEET, "PathNode", loaded);
    assert forall|j: int| 0 <= j < loaded.len() implies {
        &&& #[trigger] loaded[j].0 == rows[j].id->Ok_0
        &&& loaded[j].1.id == rows[j].id->Ok_0
        &&& rows[j].count >= 2
    } by {
        assert(parsed[j] is Ok);
        assert(loaded[j] == parsed[j]->Ok_0);
        lemma_path_node_fields_from_cells(rows[j]);
    }
}

/// A Talent row parses exactly when it has at least 2 cells and the
/// cell of every field parses. The row it gives holds in each field the
/// value parsed from that field's own cell (`id` from column 0),
/// under the id of its id cell. A refused row names the field whose cell
/// failed, with that cell's error, or no field when cells are missing.
pub proof fn lemma_talent_fields_from_cells(row: TalentCells)
    ensures
        talent_parse_spec(row) is Ok <==> row.count >= 2 && row.id is Ok,
        talent_parse_spec(row) is Ok ==> {
            let (id, x) = talent_parse_spec(row)->Ok_0;
            &&& id == row.id->Ok_0
            &&& x.id == row.id->Ok_0
        },
        talent_parse_spec(row) is Err ==> {
            let (column, e) = talent_parse_spec(row)->Err_0;
            ||| (row.count < 2 && column == "" && e == (ParseError::InvalidColumnCount { expected: 2, actual: row.count }))
            ||| (row.count >= 2 && column == "id" && row.id is Err && e == row.id->Err_0)
        },
{
}

/// Loaded Talent rows are the rows of the sheet, in order, each
/// holding the values of its own cells under the id of its id cell.
pub proof fn lemma_talent_loaded_from_cells(rows: Seq<TalentCells>, loaded: Seq<(DataId, Talent)>)
    requires
        load_result(talent_parsed(rows), TALENT_WORKBOOK, TALENT_SHEET, "Talent", Ok(loaded)),
    ensures
        loaded.len() == rows.len(),
        forall|j: int| 0 <= j < loaded.len() ==> {
            &&& #[trigger] loaded[j].0 == rows[j].id->Ok_0
            &&& loaded[j].1.id == rows[j].id->Ok_0
            &&& rows[j].count >= 2
        },
{
    let parsed = talent_parsed(rows);
    lemma_loaded_ids_distinct(parsed, TALENT_WORKBOOK, TALENT_SHEET, "Talent", loaded);
    assert forall|j: int| 0 <= j < loaded.len() implies {
        &&& #[trigger] loaded[j].0 == rows[j].id->Ok_0
        &&& loaded[j].1.id == rows[j].id->Ok_0
        &&& rows[j].count >= 2
    } by {
        assert(parsed[j] is Ok);
        assert(loaded[j] == parsed[j]->Ok_0);
        lemma_talent_fields_from_cells(rows[j]);
    }
}

/// A RandomBox row parses exactly when it has at least 3 cells and the
/// cell of every field parses. The row it gives holds in each field the
/// value parsed from that field's own cell (`id` from column 0, `name` from column 1, `items` from column 2),
/// under the id of its id cell. A refused row names the field whose cell
/// failed, with that cell's error, or no field when cells are missing.
pub proof fn lemma_random_box_fields_from_cells(row: RandomBoxCells)
    ensures
        random_box_parse_spec(row) is Ok <==> row.count >= 3 && row.id is Ok && row.name is Ok && row.items is Ok,
        random_box_parse_spec(row) is Ok ==> {
            let (id, x) = random_box_parse_spec(row)->Ok_0;
            &&& id == row.id->Ok_0
            &&& x.id == row.id->Ok_0
            &&& x.name == row.name->Ok_0
            &&& x.items == row.items->Ok_0
        },
        random_box_parse_spec(row) is Err ==> {
            let (column, e) = random_box_parse_spec(row)->Err_0;
            ||| (row.count < 3 && column == "" && e == (ParseError::InvalidColumnCount { expected: 3, actual: row.count }))
            ||| (row.count >= 3 && column == "id" && row.id is Err && e == row.id->Err_0)
            ||| (row.count >= 3 && column == "name" && row.name is Err && e == row.name->Err_0)
            ||| (row.count >= 3 && column == "items" && row.items is Err && e == row.items->Err_0)
        },
{
}

/// Loaded RandomBox rows are the rows of the sheet, in order, each
/// holding the values of its own cells under the id of its id cell.
pub proof fn lemma_random_box_loaded_from_cells(rows: Seq<RandomBoxCells>, loaded: Seq<(DataId, RandomBox)>)
    requires
        load_result(random_box_parsed(rows), RANDOM_BOX_WORKBOOK, RANDOM_BOX_SHEET, "RandomBox", Ok(loaded)),
    ensures
        loaded.len() == rows.len(),
        forall|j: int| 0 <= j < loaded.len() ==> {
            &&& #[trigger] loaded[j].0 == rows[j].id->Ok_0
            &&& loaded[j].1.id == rows[j].id->Ok_0
            &&& loaded[j].1.name == rows[j].name->Ok_0
            &&& loaded[j].1.items == rows[j].items->Ok_0
            &&& rows[j].count >= 3
        },
{
    let parsed = random_box_parsed(rows);
    lemma_loaded_ids_distinct(parsed, RANDOM_BOX_WORKBOOK, RANDOM_BOX_SHEET, "RandomBox", loaded);
    assert forall|j: int| 0 <= j < loaded.len() implies {
        &&& #[trigger] loaded[j].0 == rows[j].id->Ok_0
        &&& loaded[j].1.id == rows[j].id->Ok_0
        &&& loaded[j].1.name == rows[j].name->Ok_0
        &&& loaded[j].1.items == rows[j].items->Ok_0
        &&& rows[j].count >= 3
    } by {
        assert(parsed[j] is Ok);
        assert(loaded[j] == parsed[j]->Ok_0);
        lemma_random_box_fields_from_cells(rows[j]);
    }
}

/// A GenericSkill row parses exactly when it has at least 4 cells and the
/// cell of every field parses. The row it gives holds in each field the
/// value parsed from that field's own cell (`id` from column 0, `effects` from column 2, `costs` from column 3),
/// under the id of its id cell. A refused row names the field whose cell
/// failed, with that cell's error, or no field when cells are missing.
pub proof fn lemma_generic_skill_fields_from_cells(row: GenericSkillCells)
    ensures
        generic_skill_parse_spec(row) is Ok <==> row.count >= 4 && row.id is Ok && row.effects is Ok && row.costs is Ok,
        generic_skill_parse_spec(row) is Ok ==> {
            let (id, x) = generic_skill_parse_spec(row)->Ok_0;
            &&& id == row.id->Ok_0
            &&& x.id == row.id->Ok_0
            &&& x.effects == row.effects->Ok_0
            &&& x.costs == row.costs->Ok_0
        },
        generic_skill_parse_spec(row) is Err ==> {
            let (column, e) = generic_skill_parse_spec(row)->Err_0;
            ||| (row.count < 4 && column == "" && e == (ParseError::InvalidColumnCount { expected: 4, actual: row.count }))
            ||| (row.count >= 4 && column == "id" && row.id is Err && e == row.id->Err_0)
            ||| (row.count >= 4 && column == "effects" && row.effects is Err && e == row.effects->Err_0)
            ||| (row.count >= 4 && column == "costs" && row.costs is Err && e == row.costs->Err_0)
        },
{
}

/// Loaded GenericSkill rows are the rows of the sheet, in order, each
/// holding the values of its own cells under the id of its id cell.
pub proof fn lemma_generic_skill_loaded_from_cells(rows: Seq<GenericSkillCells>, loaded: Seq<(DataId, GenericSkill)>)
    requires
        load_result(generic_skill_parsed(rows), GENERIC_SKILL_WORKBOOK, GENERIC_SKILL_SHEET, "GenericSkill", Ok(loaded)),
    ensures
        loaded.len() == rows.len(),
        forall|j: int| 0 <= j < loaded.len() ==> {
            &&& #[trigger] loaded[j].0 == rows[j].id->Ok_0
            &&& loaded[j].1.id == rows[j].id->Ok_0
            &&& loaded[j].1.effects == rows[j].effects->Ok_0
            &&& loaded[j].1.costs == rows[j].costs->Ok_0
            &&& rows[j].count >= 4
        },
{
    let parsed = generic_skill_parsed(rows);
    lemma_loaded_ids_distinct(parsed, GENERIC_SKILL_WORKBOOK, GENERIC_SKILL_SHEET, "GenericSkill", loaded);
    assert forall|j: int| 0 <= j < loaded.len() implies {
        &&& #[trigger] loaded[j].0 == rows[j].id->Ok_0
        &&& loaded[j].1.id == rows[j].id->Ok_0
        &&& loaded[j].1.effects == rows[j].effects->Ok_0
        &&& loaded[j].1.costs == rows[j].costs->Ok_0
        &&& rows[j].count >= 4
    } by {
        assert(parsed[j] is Ok);
        assert(loaded[j] == parsed[j]->Ok_0);
        lemma_generic_skill_fields_from_cells(rows[j]);
    }
}

/// A ScriptedSkill row parses exactly when it has at least 3 cells and the
/// cell of every field parses. The row it gives holds in each field the
/// value parsed from that field's own cell (`id` from column 0, `attributes` from column 2),
/// under the id of its id cell. A refused row names the field whose cell
/// failed, with that cell's error, or no field when cells are missing.
pub proof fn lemma_scripted_skill_fields_from_cells(row: ScriptedSkillCells)
    ensures
        scripted_skill_parse_spec(row) is Ok <==> row.count >= 3 && row.id is Ok && row.attributes is Ok,
        scripted_skill_parse_spec(row) is Ok ==> {
            let (id, x) = scripted_skill_parse_spec(row)->Ok_0;
            &&& id == row.id->Ok_0
            &&& x.id == row.id->Ok_0
            &&& x.attributes == row.attributes->Ok_0
        },
        scripted_skill_parse_spec(row) is Err ==> {
            let (column, e) = scripted_skill_parse_spec(row)->Err_0;
            ||| (row.count < 3 && column == "" && e == (ParseError::InvalidColumnCount { expected: 3, actual: row.count }))
            ||| (row.count >= 3 && column == "id" && row.id is Err && e == row.id->Err_0)
            ||| (row.count >= 3 && column == "attributes" && row.attributes is Err && e == row.attributes->Err_0)
        },
{
}

/// Loaded ScriptedSkill rows are the rows of the sheet, in order, each
/// holding the values of its own cells under the id of its id cell.
pub proof fn lemma_scripted_skill_loaded_from_cells(rows: Seq<ScriptedSkillCells>, loaded: Seq<(DataId, ScriptedSkill)>)
    requires
        load_result(scripted_skill_parsed(rows), SCRIPTED_SKILL_WORKBOOK, SCRIPTED_SKILL_SHEET, "ScriptedSkill", Ok(loaded)),
    ensures
        loaded.len() == rows.len(),
        forall|j: int| 0 <= j < loaded.len() ==> {
            &&& #[trigger] loaded[j].0 == rows[j].id->Ok_0
            &&& loaded[j].1.id == rows[j].id->Ok_0
            &&& loaded[j].1.attributes == rows[j].attributes->Ok_0
            &&& rows[j].count >= 3
        },
{
    let parsed = scripted_skill_parsed(rows);
    lemma_loaded_ids_distinct(parsed, SCRIPTED_SKILL_WORKBOOK, SCRIPTED_SKILL_SHEET, "ScriptedSkill", loaded);
    assert forall|j: int| 0 <= j < loaded.len() implies {
        &&& #[trigger] loaded[j].0 == rows[j].id->Ok_0
        &&& loaded[j].1.id == rows[j].id->Ok_0
        &&& loaded[j].1.attributes == rows[j].attributes->Ok_0
        &&& rows[j].count >= 3
    } by {
        assert(parsed[j] is Ok);
        assert(loaded[j] == parsed[j]->Ok_0);
        lemma_scripted_skill_fields_from_cells(rows[j]);
    }
}

/// A LinkTest row parses exactly when it has at least 6 cells and the
/// cell of every field parses. The row it gives holds in each field the
/// value parsed from that field's own cell (`id` from column 0, `item_link` from column 1, `optional_item_link` from column 2, `multi_item_link` from column 3, `exclusive_max5_item_link` from column 5),
/// under the id of its id cell. A refused row names the field whose cell
/// failed, with that cell's error, or no field when cells are missing.
pub proof fn lemma_link_test_fields_from_cells(row: LinkTestCells)
    ensures
        link_test_parse_spec(row) is Ok <==> row.count >= 6 && row.id is Ok && row.item_link is Ok && row.optional_item_link is Ok && row.multi_item_link is Ok && row.exclusive_max5_item_link is Ok,
        link_test_parse_spec(row) is Ok ==> {
            let (id, x) = link_test_parse_spec(row)->Ok_0;
            &&& id == row.id->Ok_0
            &&& x.id == row.id->Ok_0
            &&& x.item_link == row.item_link->Ok_0
            &&& x.optional_item_link == row.optional_item_link->Ok_0
            &&& x.multi_item_link == row.multi_item_link->Ok_0
            &&& x.exclusive_max5_item_link == row.exclusive_max5_item_link->Ok_0
        },
        link_test_parse_spec(row) is Err ==> {
            let (column, e) = link_test_parse_spec(row)->Err_0;
            ||| (row.count < 6 && column == "" && e == (ParseError::InvalidColumnCount { expected: 6, actual: row.count }))
            ||| (row.count >= 6 && column == "id" && row.id is Err && e == row.id->Err_0)
            ||| (row.count >= 6 && column == "item_link" && row.item_link is Err && e == row.item_link->Err_0)
            ||| (row.count >= 6 && column == "optional_item_link" && row.optional_item_link is Err && e == row.optional_item_link->Err_0)
            ||| (row.count >= 6 && column == "multi_item_link" && row.multi_item_link is Err && e == row.multi_item_link->Err_0)
            ||| (row.count >= 6 && column == "exclusive_max5_item_link" && row.exclusive_max5_item_link is Err && e == row.exclusive_max5_item_link->Err_0)
        },
{
}

/// Loaded LinkTest rows are the rows of the sheet, with different ids and exclusive links, in order, each
/// holding the values of its own cells under the id of its id cell.
pub proof fn lemma_link_test_loaded_from_cells(rows: Seq<LinkTestCells>, loaded: Seq<(DataId, LinkTest)>)
    requires
        link_test_accepted(link_test_parsed(rows), rows.len() as int) && loaded == accepted_rows(link_test_parsed(rows)),
    ensures
        loaded.len() == rows.len(),
        forall|j: int| 0 <= j < loaded.len() ==> {
            &&& #[trigger] loaded[j].0 == rows[j].id->Ok_0
            &&& loaded[j].1.id == rows[j].id->Ok_0
            &&& loaded[j].1.item_link == rows[j].item_link->Ok_0
            &&& loaded[j].1.optional_item_link == rows[j].optional_item_link->Ok_0
            &&& loaded[j].1.multi_item_link == rows[j].multi_item_link->Ok_0
            &&& loaded[j].1.exclusive_max5_item_link == rows[j].exclusive_max5_item_link->Ok_0
            &&& rows[j].count >= 6
        },
{
    let parsed = link_test_parsed(rows);
    assert forall|j: int| 0 <= j < loaded.len() implies {
        &&& #[trigger] loaded[j].0 == rows[j].id->Ok_0
        &&& loaded[j].1.id == rows[j].id->Ok_0
        &&& loaded[j].1.item_link == rows[j].item_link->Ok_0
        &&& loaded[j].1.optional_item_link == rows[j].optional_item_link->Ok_0
        &&& loaded[j].1.multi_item_link == rows[j].multi_item_link->Ok_0
        &&& loaded[j].1.exclusive_max5_item_link == rows[j].exclusive_max5_item_link->Ok_0
        &&& rows[j].count >= 6
    } by {
        assert(parsed[j] is Ok);
        assert(loaded[j] == parsed[j]->Ok_0);
        lemma_link_test_fields_from_cells(rows[j]);
    }
}

} // verus!
