//! Ingestion of a batch: shape records are gathered in order until the first
//! SCALE record, whose body then governs the whole batch.
use vstd::prelude::*;
use crate::record::{keyword, keyword_of, Keyword};
use crate::text::{cut_at_blank, cut_once, views};

verus! {

/// A shape record: its keyword (never `Keyword::Scale`) and its body.
#[derive(Debug)]
pub struct ShapeRecord {
    pub keyword: Keyword,
    pub body: String,
}

/// The shape records of a batch, in order, and the body of its SCALE record.
#[derive(Debug)]
pub struct Batch {
    pub records: Vec<ShapeRecord>,
    pub scale: String,
}

/// Why a batch cannot be transformed.
#[derive(Debug, Clone, Copy, PartialEq, Eq, Structural)]
pub enum BatchError {
    /// No SCALE record came.
    MissingScale,
}

/// What a line contributes to a batch.
pub enum LineRole {
    /// A shape record with this keyword and body.
    Shape(Keyword, Seq<char>),
    /// The SCALE record, with its body.
    Scale(Seq<char>),
    /// A blank line, a line without a space, or an unknown keyword.
    Ignored,
}

/// What `line` contributes to a batch: its keyword is the text before its
/// first space, its body the text after it.
pub open spec fn role_of(line: Seq<char>) -> LineRole {
    match cut_at_blank(line) {
        None => LineRole::Ignored,
        Some((name, body)) => match keyword_of(name) {
            None => LineRole::Ignored,
            Some(Keyword::Scale) => LineRole::Scale(body),
            Some(k) => LineRole::Shape(k, body),
        },
    }
}

/// The shape records that come before the first SCALE record of `lines`, and
/// the body of that record if there is one.
pub open spec fn ingest_view(lines: Seq<Seq<char>>) -> (Seq<(Keyword, Seq<char>)>, Option<Seq<char>>)
    decreases lines.len(),
{
    if lines.len() == 0 {
        (seq![], None)
    } else {
        match role_of(lines[0]) {
            LineRole::Scale(body) => (seq![], Some(body)),
            LineRole::Shape(k, body) => {
                let rest = ingest_view(lines.drop_first());
                (seq![(k, body)] + rest.0, rest.1)
            },
            LineRole::Ignored => ingest_view(lines.drop_first()),
        }
    }
}

/// The keyword and body of each record.
pub open spec fn record_views(v: Seq<ShapeRecord>) -> Seq<(Keyword, Seq<char>)> {
    v.map_values(|r: ShapeRecord| (r.keyword, r.body@))
}

/// Gathers the shape records of `lines` up to the first SCALE record.
/// Without a SCALE record the batch cannot proceed.
pub fn ingest(lines: &Vec<String>) -> (r: Result<Batch, BatchError>)
    ensures
        match (r, ingest_view(views(lines@))) {
            (Ok(b), (recs, Some(scale))) => record_views(b.records@) == recs && b.scale@ == scale,
            (Err(e), (_, None)) => e == BatchError::MissingScale,
            _ => false,
        },
{
    let ghost all = views(lines@);
    let mut out: Vec<ShapeRecord> = Vec::new();
    let mut i: usize = 0;
    assert(all.skip(0) =~= all);
    assert(record_views(out@) =~= Seq::<(Keyword, Seq<char>)>::empty());
    while i < lines.len()
        invariant
            all == views(lines@),
            i <= lines@.len(),
            record_views(out@) + ingest_view(all.skip(i as int)).0 == ingest_view(all).0,
            ingest_view(all.skip(i as int)).1 == ingest_view(all).1,
            forall|j: int| 0 <= j < out@.len() ==> out@[j].keyword != Keyword::Scale,
        decreases lines@.len() - i,
    {
        let ghost rest = all.skip(i as int);
        assert(rest[0] == lines@[i as int]@);
        assert(rest.drop_first() =~= all.skip(i + 1));
        let line = &lines[i];
        match cut_once(line.as_str()) {
            None => {},
            Some((name, body)) => {
                match keyword(name.as_str()) {
                    None => {},
                    Some(Keyword::Scale) => {
                        assert(record_views(out@) + Seq::<(Keyword, Seq<char>)>::empty()
                            =~= record_views(out@));
                        return Ok(Batch { records: out, scale: body });
                    },
                    Some(k) => {
                        let ghost before = record_views(out@);
                        let ghost tail = ingest_view(rest.drop_first()).0;
                        out.push(ShapeRecord { keyword: k, body });
                        assert(record_views(out@) =~= before.push((k, body@)));
                        assert(before + (seq![(k, body@)] + tail) =~= before.push((k, body@))
                            + tail);
                    },
                }
            },
        }
        i = i + 1;
    }
    assert(all.skip(i as int) =~= Seq::<Seq<char>>::empty());
    Err(BatchError::MissingScale)
}

/// A SCALE record ends ingestion: the shape records before it are those of
/// the batch, its body governs the batch, and no line after it matters.
pub proof fn lemma_scale_ends_ingestion(
    before: Seq<Seq<char>>,
    line: Seq<char>,
    after: Seq<Seq<char>>,
)
    requires
        role_of(line) is Scale,
        forall|k: int| 0 <= k < before.len() ==> !(role_of(#[trigger] before[k]) is Scale),
    ensures
        ingest_view(before + seq![line] + after) == (
            ingest_view(before).0,
            Some(role_of(line)->Scale_0),
        ),
        ingest_view(before).1 is None,
    decreases before.len(),
{
    let all = before + seq![line] + after;
    if before.len() == 0 {
        assert(all[0] == line);
    } else {
        assert(all[0] == before[0]);
        assert(all.drop_first() =~= before.drop_first() + seq![line] + after);
        assert forall|k: int| 0 <= k < before.drop_first().len() implies !(role_of(
            #[trigger] before.drop_first()[k],
        ) is Scale) by {
            assert(before.drop_first()[k] == before[k + 1]);
        }
        lemma_scale_ends_ingestion(before.drop_first(), line, after);
    }
}

} // verus!
