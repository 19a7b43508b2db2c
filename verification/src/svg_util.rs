//! The per-item render pipeline over fetched SVG bytes.
//!
//! Each fetched item runs through three phases — parse the bytes as a
//! vector document, rasterize it at its intrinsic pixel size, encode
//! the pixels as a PNG wrapped in a base64 data URI — and every failure
//! is confined to that item's own outcome slot. The dense result set
//! always has exactly one outcome per input position.

use vstd::prelude::*;
use crate::encoding::{encode_png_payload, spec_data_uri_of};
use crate::svg_fetch::{
    collect_fetch_results, completions_well_formed, first_failure_at, has_failure, FetchCompletion,
    FetchError,
};

verus! {

#[verifier::external_type_specification]
#[verifier::external_body]
pub struct ExSvgTree(resvg::usvg::Tree);

#[verifier::external_type_specification]
#[verifier::external_body]
pub struct ExPixmap(resvg::tiny_skia::Pixmap);

/// Whether `data` parses as a vector-graphics document, as the outside
/// parser decides it.
pub uninterp spec fn svg_parse_ok(data: Seq<u8>) -> bool;

/// The intrinsic pixel size (width, height) the outside parser reads
/// off the document parsed from `data`.
pub uninterp spec fn svg_intrinsic_size(data: Seq<u8>) -> (u32, u32);

/// A parsed vector document: the parser's tree, and the intrinsic pixel
/// size read off it at parse time.
pub struct SvgDoc {
    tree: resvg::usvg::Tree,
    pub width: u32,
    pub height: u32,
}

/// Relies on usvg::Tree::from_data and usvg::Tree::size: whether bytes
/// parse as an SVG document, and the parsed document's intrinsic pixel
/// size, depend on the bytes alone.
#[verifier::external_body]
fn parse_svg(data: &Vec<u8>) -> (r: Option<SvgDoc>)
    ensures
        r is Some <==> svg_parse_ok(data@),
        r matches Some(doc) ==> doc.width == svg_intrinsic_size(data@).0 && doc.height
            == svg_intrinsic_size(data@).1,
{
    let opt = resvg::usvg::Options::default();
    match resvg::usvg::Tree::from_data(data, &opt) {
        Ok(tree) => {
            let size = tree.size().to_int_size();
            Some(SvgDoc { width: size.width(), height: size.height(), tree })
        },
        Err(_) => None,
    }
}

/// Relies on tiny_skia::Pixmap::new: a pixel buffer of the given size,
/// or nothing — in particular, nothing when a dimension is zero.
#[verifier::external_body]
fn pixmap_new(width: u32, height: u32) -> (r: Option<resvg::tiny_skia::Pixmap>)
    ensures
        width == 0 || height == 0 ==> r is None,
{
    resvg::tiny_skia::Pixmap::new(width, height)
}

/// Relies on resvg::render: rasterizes the document into the pixmap
/// under the identity transform.
#[verifier::external_body]
fn render_into(doc: &SvgDoc, pixmap: &mut resvg::tiny_skia::Pixmap) {
    resvg::render(&doc.tree, resvg::tiny_skia::Transform::default(), &mut pixmap.as_mut());
}

/// Relies on tiny_skia::Pixmap::encode_png: the pixel buffer serialized
/// as PNG bytes, or nothing on an encoding failure.
#[verifier::external_body]
fn encode_png(pixmap: &resvg::tiny_skia::Pixmap) -> (r: Option<Vec<u8>>) {
    pixmap.encode_png().ok()
}

/// What one item ran into, if anything. The first three arise in the
/// phase of the same name; `NotProcessed` marks a result-set slot that
/// no outcome reached.
#[derive(Clone, Copy, Debug, PartialEq, Eq, Structural)]
pub enum RenderError {
    Parse,
    InvalidDimensions,
    PixmapAlloc,
    PngEncode,
    NotProcessed,
}

/// One item's outcome: the encoded payload, or the error the item ran
/// into. `error` is `None` exactly when `base64_data` holds a payload.
#[derive(Debug, Clone)]
pub struct TaskResult {
    pub base64_data: String,
    pub error: Option<RenderError>,
}

/// How a single item's outcome may relate to that item's bytes — and to
/// nothing else: a parse failure and a zero-area document are decided
/// by the bytes; past those, only this item's own buffer allocation or
/// PNG encoding may still fail; a success carries a PNG data URI.
pub open spec fn outcome_for(data: Seq<u8>, r: TaskResult) -> bool {
    &&& (!svg_parse_ok(data) ==> r.error == Some(RenderError::Parse))
    &&& (svg_parse_ok(data) && (svg_intrinsic_size(data).0 == 0 || svg_intrinsic_size(data).1
        == 0) ==> r.error == Some(RenderError::InvalidDimensions))
    &&& (svg_parse_ok(data) && svg_intrinsic_size(data).0 != 0 && svg_intrinsic_size(data).1 != 0
        ==> (r.error is None || r.error == Some(RenderError::PixmapAlloc) || r.error == Some(
        RenderError::PngEncode,
    )))
    &&& (r.error is Some ==> r.base64_data@ == Seq::<char>::empty())
    &&& (r.error is None ==> exists|png: Seq<u8>| r.base64_data@ == spec_data_uri_of(png))
}

/// Renders one fetched item, isolated from all its siblings: parse,
/// reject a zero-area document, rasterize at the intrinsic size, encode
/// as a PNG data URI. Every failure becomes this item's own outcome.
pub fn render_item(data: &Vec<u8>) -> (r: TaskResult)
    ensures
        outcome_for(data@, r),
{
    match parse_svg(data) {
        None => TaskResult { base64_data: String::new(), error: Some(RenderError::Parse) },
        Some(doc) => {
            if doc.width == 0 || doc.height == 0 {
                TaskResult {
                    base64_data: String::new(),
                    error: Some(RenderError::InvalidDimensions),
                }
            } else {
                match pixmap_new(doc.width, doc.height) {
                    None => TaskResult {
                        base64_data: String::new(),
                        error: Some(RenderError::PixmapAlloc),
                    },
                    Some(mut pixmap) => {
                        render_into(&doc, &mut pixmap);
                        match encode_png(&pixmap) {
                            None => TaskResult {
                                base64_data: String::new(),
                                error: Some(RenderError::PngEncode),
                            },
                            Some(png) => {
                                if png.len() <= usize::MAX / 8 {
                                    let payload = encode_png_payload(&png);
                                    proof {
                                        assert(payload@ == spec_data_uri_of(png@));
                                    }
                                    TaskResult { base64_data: payload, error: None }
                                } else {
                                    TaskResult {
                                        base64_data: String::new(),
                                        error: Some(RenderError::PngEncode),
                                    }
                                }
                            },
                        }
                    },
                }
            }
        },
    }
}

/// Reassembles per-index outcomes into the dense result set of length
/// `n`: each reported index receives its own outcome, and an index that
/// no outcome reached is filled with the `NotProcessed` sentinel.
pub fn aggregate_results(n: usize, outcomes: Vec<(usize, TaskResult)>) -> (r: Vec<TaskResult>)
    requires
        forall|i: int| 0 <= i < outcomes@.len() ==> (#[trigger] outcomes@[i]).0 < n,
        forall|i: int, j: int|
            0 <= i < j < outcomes@.len() ==> outcomes@[i].0 != outcomes@[j].0,
    ensures
        r@.len() == n,
        forall|i: int|
            0 <= i < outcomes@.len() ==> r@[(#[trigger] outcomes@[i]).0 as int] == outcomes@[i].1,
        forall|k: int|
            0 <= k < n && !(exists|i: int|
                0 <= i < outcomes@.len() && (#[trigger] outcomes@[i]).0 == k) ==> (#[trigger] r@[k]).error
                == Some(RenderError::NotProcessed) && r@[k].base64_data@ == Seq::<char>::empty(),
{
    let ghost all = outcomes@;
    let mut r: Vec<TaskResult> = Vec::new();
    let mut k: usize = 0;
    while k < n
        invariant
            k <= n,
            r@.len() == k,
            forall|t: int|
                0 <= t < k ==> (#[trigger] r@[t]).error == Some(RenderError::NotProcessed)
                    && r@[t].base64_data@ == Seq::<char>::empty(),
        decreases n - k,
    {
        r.push(TaskResult { base64_data: String::new(), error: Some(RenderError::NotProcessed) });
        k += 1;
    }
    let mut rest = outcomes;
    proof {
        assert(all.take(all.len() as int) =~= all);
    }
    while rest.len() > 0
        invariant
            r@.len() == n,
            rest@.len() <= all.len(),
            rest@ == all.take(rest@.len() as int),
            forall|i: int| 0 <= i < all.len() ==> (#[trigger] all[i]).0 < n,
            forall|i: int, j: int| 0 <= i < j < all.len() ==> all[i].0 != all[j].0,
            forall|i: int|
                rest@.len() <= i < all.len() ==> r@[(#[trigger] all[i]).0 as int] == all[i].1,
            forall|k2: int|
                0 <= k2 < n && !(exists|i: int|
                    rest@.len() <= i < all.len() && (#[trigger] all[i]).0 == k2) ==> (
                #[trigger] r@[k2]).error == Some(RenderError::NotProcessed) && r@[k2].base64_data@
                    == Seq::<char>::empty(),
        decreases rest@.len(),
    {
        proof {
            assert(rest@[rest@.len() - 1] == all[rest@.len() - 1]);
        }
        let (idx, tr) = rest.pop().unwrap();
        r.set(idx, tr);
        proof {
            assert(rest@ =~= all.take(rest@.len() as int));
        }
    }
    r
}

/// Runs the render phases over a batch's items and reassembles the
/// outcomes: one outcome per input position, and each position's
/// outcome relates to that position's bytes alone.
pub fn process_svg_pipeline(items: &Vec<(usize, Vec<u8>)>) -> (r: Vec<TaskResult>)
    requires
        forall|i: int| 0 <= i < items@.len() ==> (#[trigger] items@[i]).0 < items@.len(),
        forall|i: int, j: int| 0 <= i < j < items@.len() ==> items@[i].0 != items@[j].0,
    ensures
        r@.len() == items@.len(),
        forall|i: int|
            0 <= i < items@.len() ==> outcome_for(
                (#[trigger] items@[i]).1@,
                r@[items@[i].0 as int],
            ),
{
    let mut outcomes: Vec<(usize, TaskResult)> = Vec::new();
    let mut i: usize = 0;
    let n = items.len();
    while i < n
        invariant
            i <= n,
            n == items@.len(),
            outcomes@.len() == i,
            forall|t: int| 0 <= t < i ==> (#[trigger] outcomes@[t]).0 == items@[t].0,
            forall|t: int|
                0 <= t < i ==> outcome_for(items@[t].1@, (#[trigger] outcomes@[t]).1),
            forall|t: int| 0 <= t < items@.len() ==> (#[trigger] items@[t]).0 < items@.len(),
            forall|t: int, u: int| 0 <= t < u < items@.len() ==> items@[t].0 != items@[u].0,
        decreases n - i,
    {
        let outcome = render_item(&items[i].1);
        outcomes.push((items[i].0, outcome));
        i += 1;
    }
    let ghost outs = outcomes@;
    let r = aggregate_results(n, outcomes);
    proof {
        assert forall|i: int| 0 <= i < items@.len() implies outcome_for(
            (#[trigger] items@[i]).1@,
            r@[items@[i].0 as int],
        ) by {
            assert(outs[i].0 == items@[i].0);
            assert(r@[outs[i].0 as int] == outs[i].1);
            assert(outcome_for(items@[i].1@, outs[i].1));
        }
    }
    r
}

/// Distributes fetched SVG assets over the render pipeline.
pub struct SvgUtil {}

impl SvgUtil {
    /// The whole batch stage over one task's fetch completions: the
    /// first fetch failure aborts the batch with that failure and no
    /// result set; otherwise every fetched item is rendered in
    /// isolation and the result set holds one outcome per input
    /// position, each relating to that position's bytes alone.
    pub fn process_suffix_svg(n: usize, completions: &Vec<FetchCompletion>) -> (r: Result<
        Vec<TaskResult>,
        FetchError,
    >)
        requires
            completions_well_formed(completions@, n as int),
        ensures
            r is Err <==> has_failure(completions@),
            r matches Err(e) ==> exists|i: int|
                first_failure_at(completions@, i) && completions@[i].outcome->Err_0 == e,
            r matches Ok(out) ==> out@.len() == n && forall|i: int|
                0 <= i < n ==> outcome_for(
                    (#[trigger] completions@[i]).outcome->Ok_0@,
                    out@[completions@[i].index as int],
                ),
    {
        let bytes_list = match collect_fetch_results(n, completions) {
            Result::Err(e) => {
                return Result::Err(e);
            },
            Result::Ok(bl) => bl,
        };
        let ghost full = bytes_list@;
        let mut items: Vec<(usize, Vec<u8>)> = Vec::new();
        let mut bl = bytes_list;
        proof {
            assert(full.take(full.len() as int) =~= full);
        }
        while bl.len() > 0
            invariant
                full.len() == n,
                bl@.len() <= n,
                bl@ == full.take(bl@.len() as int),
                items@.len() + bl@.len() == n,
                forall|t: int|
                    0 <= t < items@.len() ==> (#[trigger] items@[t]).0 == n - 1 - t
                        && items@[t].1@ == full[n - 1 - t]@,
            decreases bl@.len(),
        {
            proof {
                assert(bl@[bl@.len() - 1] == full[bl@.len() - 1]);
            }
            let k = bl.len() - 1;
            let b = bl.pop().unwrap();
            items.push((k, b));
            proof {
                assert(bl@ =~= full.take(bl@.len() as int));
            }
        }
        let results = process_svg_pipeline(&items);
        proof {
            assert forall|i: int| 0 <= i < n implies outcome_for(
                (#[trigger] completions@[i]).outcome->Ok_0@,
                results@[completions@[i].index as int],
            ) by {
                let k = completions@[i].index as int;
                let t = n - 1 - k;
                assert(items@[t].0 == k && items@[t].1@ == full[k]@);
                assert(outcome_for(items@[t].1@, results@[k]));
                assert(full[k]@ == completions@[i].outcome->Ok_0@);
            }
        }
        Result::Ok(results)
    }

    /// Folds a dense result set into the batch's payload list: the
    /// first per-item error in position order fails the whole batch;
    /// otherwise the payloads are returned in position order.
    pub fn batch_process_svgs(tasks: &Vec<TaskResult>) -> (r: Result<Vec<String>, RenderError>)
        ensures
            r is Err <==> exists|i: int|
                0 <= i < tasks@.len() && (#[trigger] tasks@[i]).error is Some,
            r matches Err(e) ==> exists|i: int|
                0 <= i < tasks@.len() && (#[trigger] tasks@[i]).error == Some(e) && (forall|j: int|
                    0 <= j < i ==> (#[trigger] tasks@[j]).error is None),
            r matches Ok(out) ==> out@.len() == tasks@.len() && forall|i: int|
                0 <= i < tasks@.len() ==> (#[trigger] out@[i])@ == tasks@[i].base64_data@
                    && tasks@[i].error is None,
    {
        let mut out: Vec<String> = Vec::new();
        let mut i: usize = 0;
        let n = tasks.len();
        while i < n
            invariant
                i <= n,
                n == tasks@.len(),
                out@.len() == i,
                forall|j: int| 0 <= j < i ==> (#[trigger] tasks@[j]).error is None,
                forall|j: int| 0 <= j < i ==> (#[trigger] out@[j])@ == tasks@[j].base64_data@,
            decreases n - i,
        {
            let t = &tasks[i];
            match &t.error {
                Some(e) => {
                    return Result::Err(*e);
                },
                None => {
                    out.push(t.base64_data.clone());
                },
            }
            i += 1;
        }
        Result::Ok(out)
    }
}

} // verus!
