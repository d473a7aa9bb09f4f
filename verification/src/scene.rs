//! Rules of scene loading and of the scene's debug view: which model file a
//! scene node stands for, how model files are told apart, and how a layer
//! of the navigation grid is drawn as text.
//!
//! Names and paths are byte strings, as the scene files hold them.

use vstd::prelude::*;

verus! {

/// The kinds of model file.
#[derive(Clone, Copy, Debug, PartialEq, Eq, Structural)]
pub enum ModelKind {
    Mv3,
    Pol,
    Cvd,
}

/// The lower-case form of an ASCII letter; any other byte as it is.
pub open spec fn ascii_lower(b: u8) -> u8 {
    if 0x41 <= b <= 0x5a {
        (b + 0x20) as u8
    } else {
        b
    }
}

/// Whether `path` ends in the four bytes given, letters compared without
/// regard to case.
pub open spec fn ends_in(path: Seq<u8>, e0: u8, e1: u8, e2: u8, e3: u8) -> bool {
    &&& path.len() >= 4
    &&& ascii_lower(path[path.len() - 4]) == e0
    &&& ascii_lower(path[path.len() - 3]) == e1
    &&& ascii_lower(path[path.len() - 2]) == e2
    &&& ascii_lower(path[path.len() - 1]) == e3
}

/// The kind of model that a path names by its extension: `.mv3`, `.pol` or
/// `.cvd`, in any case.
pub open spec fn spec_model_kind(path: Seq<u8>) -> Option<ModelKind> {
    if ends_in(path, 0x2e, 0x6d, 0x76, 0x33) {
        Some(ModelKind::Mv3)
    } else if ends_in(path, 0x2e, 0x70, 0x6f, 0x6c) {
        Some(ModelKind::Pol)
    } else if ends_in(path, 0x2e, 0x63, 0x76, 0x64) {
        Some(ModelKind::Cvd)
    } else {
        None
    }
}

fn lower(b: u8) -> (r: u8)
    ensures
        r == ascii_lower(b),
{
    if 0x41 <= b && b <= 0x5a {
        b + 0x20
    } else {
        b
    }
}

/// The kind of model that `path` names, if it names one.
pub fn model_kind(path: &[u8]) -> (kind: Option<ModelKind>)
    ensures
        kind == spec_model_kind(path@),
{
    let n: usize = path.len();
    if n < 4 {
        return None;
    }
    let e0: u8 = lower(path[n - 4]);
    let e1: u8 = lower(path[n - 3]);
    let e2: u8 = lower(path[n - 2]);
    let e3: u8 = lower(path[n - 1]);
    if e0 != 0x2e {
        None
    } else if e1 == 0x6d && e2 == 0x76 && e3 == 0x33 {
        Some(ModelKind::Mv3)
    } else if e1 == 0x70 && e2 == 0x6f && e3 == 0x6c {
        Some(ModelKind::Pol)
    } else if e1 == 0x63 && e2 == 0x76 && e3 == 0x64 {
        Some(ModelKind::Cvd)
    } else {
        None
    }
}

/// The node types that stand for no object.
pub const NODE_TYPE_PLAIN: i32 = 37;

pub const NODE_TYPE_TRIGGER: i32 = 43;

/// Where the model of a scene object is found.
#[derive(Clone, Copy, Debug, PartialEq, Eq, Structural)]
pub enum ObjectSource {
    /// In the scene's own folder, under the object's name.
    SceneFolder,
    /// In the folder of shared objects, under the object's name.
    ObjectFolder,
    /// In the folder of items: a folder of the object's name that holds a
    /// `.pol` model of the same name.
    ItemFolder,
}

/// Where the model of a scene node is found, for a node that has one.
///
/// A node of one of the two plain types, or without a name, is no object.
/// A name that starts with `_` is a model of the scene's own; any other
/// name with a dot in it is a shared object; a name that starts with `+` is
/// passed over; every other name is an item.
pub open spec fn spec_object_source(node_type: i32, name: Seq<u8>) -> Option<ObjectSource> {
    if node_type == NODE_TYPE_PLAIN || node_type == NODE_TYPE_TRIGGER || name.len() == 0 {
        None
    } else if name[0] == 0x5f {
        Some(ObjectSource::SceneFolder)
    } else if name.contains(0x2e) {
        Some(ObjectSource::ObjectFolder)
    } else if name[0] == 0x2b {
        None
    } else {
        Some(ObjectSource::ItemFolder)
    }
}

fn has_dot(name: &[u8]) -> (r: bool)
    ensures
        r == name@.contains(0x2e),
{
    let mut i: usize = 0;
    while i < name.len()
        invariant
            i <= name.len(),
            forall|k: int| 0 <= k < i ==> name@[k] != 0x2e,
        decreases name.len() - i,
    {
        if name[i] == 0x2e {
            return true;
        }
        i = i + 1;
    }
    false
}

/// Where the model of a scene node is found, if the node has one.
pub fn object_source(node_type: i32, name: &[u8]) -> (source: Option<ObjectSource>)
    ensures
        source == spec_object_source(node_type, name@),
{
    if node_type == NODE_TYPE_PLAIN || node_type == NODE_TYPE_TRIGGER || name.len() == 0 {
        None
    } else if name[0] == 0x5f {
        Some(ObjectSource::SceneFolder)
    } else if has_dot(name) {
        Some(ObjectSource::ObjectFolder)
    } else if name[0] == 0x2b {
        None
    } else {
        Some(ObjectSource::ItemFolder)
    }
}

/// What the loading rule reads of a scene node.
pub struct SceneNode {
    pub node_type: i32,
    pub name: Vec<u8>,
}

/// An object to load: the node that it comes from and where its model is
/// found. Objects are numbered in the order of the plan.
#[derive(Clone, Copy, Debug, PartialEq, Eq, Structural)]
pub struct PlannedObject {
    pub node: usize,
    pub source: ObjectSource,
}

/// The objects that the first `upto` nodes give, in the order of the nodes.
pub open spec fn planned(nodes: Seq<SceneNode>, upto: int) -> Seq<PlannedObject>
    decreases upto,
{
    if upto <= 0 {
        Seq::empty()
    } else {
        let before = planned(nodes, upto - 1);
        match spec_object_source(nodes[upto - 1].node_type, nodes[upto - 1].name@) {
            Some(source) => before.push(PlannedObject { node: (upto - 1) as usize, source }),
            None => before,
        }
    }
}

/// The objects that a scene's nodes give: every node that has a model, and
/// no other, in the order of the nodes.
pub fn plan_objects(nodes: &Vec<SceneNode>) -> (plan: Vec<PlannedObject>)
    ensures
        plan@ == planned(nodes@, nodes@.len() as int),
{
    let mut plan: Vec<PlannedObject> = Vec::new();
    let mut i: usize = 0;
    while i < nodes.len()
        invariant
            i <= nodes.len(),
            plan@ == planned(nodes@, i as int),
        decreases nodes.len() - i,
    {
        match object_source(nodes[i].node_type, nodes[i].name.as_slice()) {
            Some(source) => {
                plan.push(PlannedObject { node: i, source });
            },
            None => {},
        }
        i = i + 1;
    }
    plan
}

/// Every planned object comes from one of the nodes, and its source is the
/// one that the rule gives for that node.
pub proof fn lemma_plan_is_sound(nodes: Seq<SceneNode>, upto: int, k: int)
    requires
        0 <= upto <= nodes.len() <= usize::MAX,
        0 <= k < planned(nodes, upto).len(),
    ensures
        planned(nodes, upto)[k].node < upto,
        spec_object_source(
            nodes[planned(nodes, upto)[k].node as int].node_type,
            nodes[planned(nodes, upto)[k].node as int].name@,
        ) == Some(planned(nodes, upto)[k].source),
    decreases upto,
{
    if upto > 0 {
        let before = planned(nodes, upto - 1);
        if k < before.len() {
            lemma_plan_is_sound(nodes, upto - 1, k);
        }
    }
}

/// The plan follows the order of the nodes.
pub proof fn lemma_plan_ascends(nodes: Seq<SceneNode>, upto: int, k: int, l: int)
    requires
        0 <= upto <= nodes.len() <= usize::MAX,
        0 <= k < l < planned(nodes, upto).len(),
    ensures
        planned(nodes, upto)[k].node < planned(nodes, upto)[l].node,
    decreases upto,
{
    if upto > 0 {
        let before = planned(nodes, upto - 1);
        if l < before.len() {
            lemma_plan_ascends(nodes, upto - 1, k, l);
        } else {
            lemma_plan_is_sound(nodes, upto - 1, k);
        }
    }
}

/// No node that has a model is left out of the plan.
pub proof fn lemma_plan_is_complete(nodes: Seq<SceneNode>, upto: int, n: int) -> (k: int)
    requires
        0 <= n < upto <= nodes.len() <= usize::MAX,
        spec_object_source(nodes[n].node_type, nodes[n].name@) is Some,
    ensures
        0 <= k < planned(nodes, upto).len(),
        planned(nodes, upto)[k].node == n,
    decreases upto,
{
    let before = planned(nodes, upto - 1);
    if n < upto - 1 {
        lemma_plan_is_complete(nodes, upto - 1, n)
    } else {
        before.len() as int
    }
}

/// The letter that stands for a cell of the navigation grid: `x` for the
/// cell that is marked, `=` for a cell away from the border, `_` for any
/// other.
pub open spec fn nav_cell(distance_to_border: i32, marked: bool) -> u8 {
    if marked {
        0x78
    } else if distance_to_border > 0 {
        0x3d
    } else {
        0x5f
    }
}

/// One row of the grid as text: a letter for each cell, then a line feed.
pub open spec fn row_text(row: Seq<i32>, marked: Option<int>) -> Seq<u8> {
    Seq::new(
        row.len() + 1,
        |i: int|
            if i == row.len() {
                0x0au8
            } else {
                nav_cell(row[i], marked == Some(i))
            },
    )
}

/// The column that is marked in row `j`, if the mark lies in that row.
pub open spec fn marked_in_row(mark: Option<(usize, usize)>, j: int) -> Option<int> {
    match mark {
        Some((i, row)) => if row == j {
            Some(i as int)
        } else {
            None
        },
        None => None,
    }
}

/// The first `upto` rows of the grid as text, one after the other.
pub open spec fn grid_text(rows: Seq<Vec<i32>>, mark: Option<(usize, usize)>, upto: int) -> Seq<u8>
    decreases upto,
{
    if upto <= 0 {
        Seq::empty()
    } else {
        grid_text(rows, mark, upto - 1) + row_text(rows[upto - 1]@, marked_in_row(mark, upto - 1))
    }
}

/// Draws a layer of the navigation grid as text, row by row. `rows[j][i]`
/// is the distance to the border of the cell in column `i` of row `j`;
/// `mark` is the column and the row of the cell to mark.
pub fn nav_text(rows: &Vec<Vec<i32>>, mark: Option<(usize, usize)>) -> (text: Vec<u8>)
    ensures
        text@ == grid_text(rows@, mark, rows@.len() as int),
{
    let mut text: Vec<u8> = Vec::new();
    let mut j: usize = 0;
    while j < rows.len()
        invariant
            j <= rows.len(),
            text@ == grid_text(rows@, mark, j as int),
        decreases rows.len() - j,
    {
        let row: &Vec<i32> = &rows[j];
        let ghost before = text@;
        let ghost marked = marked_in_row(mark, j as int);
        let mut i: usize = 0;
        while i < row.len()
            invariant
                i <= row.len(),
                marked == marked_in_row(mark, j as int),
                text@ == before + row_text(row@, marked).subrange(0, i as int),
            decreases row.len() - i,
        {
            let is_marked: bool = match mark {
                Some((column, line)) => column == i && line == j,
                None => false,
            };
            let letter: u8 = if is_marked {
                0x78
            } else if row[i] > 0 {
                0x3d
            } else {
                0x5f
            };
            text.push(letter);
            assert(text@ =~= before + row_text(row@, marked).subrange(0, i + 1));
            i = i + 1;
        }
        text.push(0x0a);
        assert(text@ =~= before + row_text(row@, marked));
        j = j + 1;
    }
    text
}

} // verus!
