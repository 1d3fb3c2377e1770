use vstd::prelude::*;
use crate::text::{range_text, slice_text};

verus! {

/// Whether a tag marks where a name is defined or where it is used.
#[derive(PartialEq, Eq, Structural, Clone, Copy, Debug)]
pub enum Role {
    Def,
    Ref,
}

impl Role {
    /// The role that a pattern marked (or not) as a definition gives.
    pub open spec fn spec_of(is_definition: bool) -> Role {
        if is_definition {
            Role::Def
        } else {
            Role::Ref
        }
    }

    pub fn of(is_definition: bool) -> (r: Role)
        ensures
            r == Role::spec_of(is_definition),
    {
        if is_definition {
            Role::Def
        } else {
            Role::Ref
        }
    }

    pub open spec fn spec_as_str(self) -> Seq<char> {
        match self {
            Role::Def => "def"@,
            Role::Ref => "ref"@,
        }
    }

    /// The short label of the role: `def` or `ref`.
    pub fn as_str(&self) -> (r: &'static str)
        ensures
            r@ == self.spec_as_str(),
    {
        match self {
            Role::Def => "def",
            Role::Ref => "ref",
        }
    }
}

/// A tag as the matcher reports it: byte ranges into the source, the name of
/// its syntax kind, and whether its pattern marks a definition.
#[derive(Clone, Debug)]
pub struct RawTag {
    pub name_start: usize,
    pub name_end: usize,
    pub line_start: usize,
    pub line_end: usize,
    pub kind: String,
    pub is_definition: bool,
}

/// A self-contained tag: the name, its syntax kind, its role, and the source
/// line that holds the name.
#[derive(Clone, Debug, PartialEq, Eq)]
pub struct TagRecord {
    pub name: String,
    pub kind: String,
    pub role: Role,
    pub first_line: String,
}

pub struct TagView {
    pub name: Seq<char>,
    pub kind: Seq<char>,
    pub role: Role,
    pub first_line: Seq<char>,
}

impl View for TagRecord {
    type V = TagView;

    open spec fn view(&self) -> TagView {
        TagView {
            name: self.name@,
            kind: self.kind@,
            role: self.role,
            first_line: self.first_line@,
        }
    }
}

/// The record that `raw` gives over `source`.
pub open spec fn record_of(source: Seq<u8>, raw: RawTag) -> TagView {
    TagView {
        name: range_text(source, raw.name_start as int, raw.name_end as int),
        kind: raw.kind@,
        role: Role::spec_of(raw.is_definition),
        first_line: range_text(source, raw.line_start as int, raw.line_end as int),
    }
}

/// The records that a sequence of raw tags gives, one for each, in order.
pub open spec fn records_of(source: Seq<u8>, raws: Seq<RawTag>) -> Seq<TagView> {
    raws.map_values(|t: RawTag| record_of(source, t))
}

/// The views of a sequence of records.
pub open spec fn views_of(records: Seq<TagRecord>) -> Seq<TagView> {
    records.map_values(|t: TagRecord| t@)
}

/// Turns one raw tag into a record by slicing its ranges out of `source`.
pub fn materialize(source: &[u8], raw: &RawTag) -> (r: TagRecord)
    ensures
        r@ == record_of(source@, *raw),
{
    TagRecord {
        name: slice_text(source, raw.name_start, raw.name_end),
        kind: raw.kind.clone(),
        role: Role::of(raw.is_definition),
        first_line: slice_text(source, raw.line_start, raw.line_end),
    }
}

/// Turns each raw tag into a record, keeping their order.
pub fn materialize_all(source: &[u8], raws: &Vec<RawTag>) -> (r: Vec<TagRecord>)
    ensures
        views_of(r@) == records_of(source@, raws@),
{
    let mut out: Vec<TagRecord> = Vec::new();
    let mut i: usize = 0;
    while i < raws.len()
        invariant
            i <= raws@.len(),
            views_of(out@) =~= records_of(source@, raws@.subrange(0, i as int)),
        decreases raws@.len() - i,
    {
        let rec = materialize(source, &raws[i]);
        let ghost before = out@;
        out.push(rec);
        assert(out@ =~= before.push(rec));
        assert(views_of(out@) =~= views_of(before).push(rec@));
        i = i + 1;
        assert(raws@.subrange(0, i as int) =~= raws@.subrange(0, i - 1).push(raws@[i - 1]));
        assert(records_of(source@, raws@.subrange(0, i as int)) =~= records_of(
            source@,
            raws@.subrange(0, i - 1),
        ).push(record_of(source@, raws@[i - 1])));
    }
    assert(raws@.subrange(0, i as int) =~= raws@);
    out
}

/// Records come out in the order of the tags they come from: record `i` is
/// made from tag `i`, and the records of two runs of tags placed one after the
/// other are those of the first run followed by those of the second.
pub proof fn lemma_records_keep_order(source: Seq<u8>, first: Seq<RawTag>, second: Seq<RawTag>)
    ensures
        records_of(source, first).len() == first.len(),
        forall|i: int|
            0 <= i < first.len() ==> #[trigger] records_of(source, first)[i] == record_of(
                source,
                first[i],
            ),
        records_of(source, first + second) == records_of(source, first) + records_of(
            source,
            second,
        ),
{
    assert(records_of(source, first + second) =~= records_of(source, first) + records_of(
        source,
        second,
    ));
}

/// A record is a definition exactly when the pattern of its tag marks a
/// definition, and a reference otherwise.
pub proof fn lemma_role_follows_pattern(source: Seq<u8>, raws: Seq<RawTag>, i: int)
    requires
        0 <= i < raws.len(),
    ensures
        (records_of(source, raws)[i].role == Role::Def) == raws[i].is_definition,
        (records_of(source, raws)[i].role == Role::Ref) == !raws[i].is_definition,
{
}

} // verus!
