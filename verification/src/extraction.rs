use vstd::prelude::*;
use vstd::relations::sorted_by;

use crate::builtin_entity::spec_supports;
use crate::builtin_entity::BuiltinEntity;
use crate::builtin_entity::BuiltinEntityKind;
use crate::conversion::convert_match;
use crate::conversion::spec_entity_of;
use crate::conversion::spec_raw_ok;
use crate::conversion::RawMatch;
use crate::errors::ExtractError;
use crate::language::Language;

verus! {

/// The output order of extraction: ascending start offset, and at equal
/// start offsets the longer span first.
pub open spec fn spec_entity_leq(a: BuiltinEntity, b: BuiltinEntity) -> bool {
    ||| a.range.start < b.range.start
    ||| (a.range.start == b.range.start && a.range.end >= b.range.end)
}

/// The output order of extraction, as a relation value.
pub open spec fn spec_entity_order() -> spec_fn(BuiltinEntity, BuiltinEntity) -> bool {
    |a: BuiltinEntity, b: BuiltinEntity| spec_entity_leq(a, b)
}

/// Of two overlapping matches starting at the same offset, the longer one
/// is ordered strictly first.
pub proof fn lemma_same_start_longer_first(a: BuiltinEntity, b: BuiltinEntity)
    requires
        a.range.start == b.range.start,
        a.range.end > b.range.end,
    ensures
        spec_entity_leq(a, b),
        !spec_entity_leq(b, a),
{
}

/// Whether a kind was requested; an absent request asks for every kind.
pub open spec fn spec_requested(
    requested: Option<Seq<BuiltinEntityKind>>,
    k: BuiltinEntityKind,
) -> bool {
    match requested {
        None => true,
        Some(s) => s.contains(k),
    }
}

/// Whether an extraction call attempts a kind: the language must support
/// it and the caller must have requested it.
pub open spec fn spec_kind_pred(
    language: Language,
    requested: Option<Seq<BuiltinEntityKind>>,
) -> spec_fn(BuiltinEntityKind) -> bool {
    |k: BuiltinEntityKind| spec_supports(k, language) && spec_requested(requested, k)
}

/// The kinds an extraction call attempts: the registry's kinds that the
/// language supports and the caller requested, in the registry's order.
pub open spec fn spec_effective_kinds(
    language: Language,
    requested: Option<Seq<BuiltinEntityKind>>,
) -> Seq<BuiltinEntityKind> {
    BuiltinEntityKind::spec_all().filter(spec_kind_pred(language, requested))
}

/// The view of an optional borrowed kind list.
pub open spec fn spec_req_view(requested: Option<&Vec<BuiltinEntityKind>>) -> Option<
    Seq<BuiltinEntityKind>,
> {
    match requested {
        Some(v) => Some(v@),
        None => None,
    }
}

/// The entities that a sequence of raw engine matches yields, in engine
/// order: each match of an attempted kind that converts contributes its
/// record; the others are dropped.
pub open spec fn spec_extracted(
    kinds: Seq<BuiltinEntityKind>,
    raws: Seq<RawMatch>,
) -> Seq<BuiltinEntity>
    decreases raws.len(),
{
    if raws.len() == 0 {
        Seq::empty()
    } else {
        let rest = spec_extracted(kinds, raws.drop_last());
        let m = raws.last();
        if kinds.contains(m.kind) && spec_raw_ok(m) {
            rest.push(spec_entity_of(m))
        } else {
            rest
        }
    }
}

/// Every extracted entity carries a kind from the attempted set.
pub proof fn lemma_extracted_kinds(kinds: Seq<BuiltinEntityKind>, raws: Seq<RawMatch>)
    ensures
        forall|i: int|
            0 <= i < spec_extracted(kinds, raws).len() ==> kinds.contains(
                #[trigger] spec_extracted(kinds, raws)[i].entity_kind,
            ),
    decreases raws.len(),
{
    if raws.len() > 0 {
        lemma_extracted_kinds(kinds, raws.drop_last());
    }
}

/// Every extracted entity is the conversion of some raw match of an
/// attempted kind that was acceptable: a match that fails conversion
/// never appears in the output.
pub proof fn lemma_extracted_sources(kinds: Seq<BuiltinEntityKind>, raws: Seq<RawMatch>)
    ensures
        forall|i: int|
            0 <= i < spec_extracted(kinds, raws).len() ==> exists|j: int|
                0 <= j < raws.len() && kinds.contains(raws[j].kind) && spec_raw_ok(raws[j])
                    && #[trigger] spec_extracted(kinds, raws)[i] == spec_entity_of(raws[j]),
    decreases raws.len(),
{
    if raws.len() > 0 {
        lemma_extracted_sources(kinds, raws.drop_last());
        let prev = spec_extracted(kinds, raws.drop_last());
        let cur = spec_extracted(kinds, raws);
        assert forall|i: int| 0 <= i < cur.len() implies exists|j: int|
            0 <= j < raws.len() && kinds.contains(raws[j].kind) && spec_raw_ok(raws[j])
                && #[trigger] cur[i] == spec_entity_of(raws[j]) by {
            if i < prev.len() {
                let j0 = choose|j0: int|
                    0 <= j0 < raws.drop_last().len() && kinds.contains(raws.drop_last()[j0].kind)
                        && spec_raw_ok(raws.drop_last()[j0]) && prev[i] == spec_entity_of(
                        raws.drop_last()[j0],
                    );
                assert(raws.drop_last()[j0] == raws[j0]);
                assert(cur[i] == spec_entity_of(raws[j0]));
            } else {
                let j0 = raws.len() - 1;
                assert(raws[j0] == raws.last());
                assert(cur[i] == spec_entity_of(raws[j0]));
            }
        }
    }
}

/// With no kind to attempt, nothing is extracted.
pub proof fn lemma_no_kinds_no_entities(kinds: Seq<BuiltinEntityKind>, raws: Seq<RawMatch>)
    requires
        kinds.len() == 0,
    ensures
        spec_extracted(kinds, raws).len() == 0,
    decreases raws.len(),
{
    if raws.len() > 0 {
        lemma_no_kinds_no_entities(kinds, raws.drop_last());
    }
}

/// Whether a kind stands in a list of kinds.
fn kinds_contain(kinds: &Vec<BuiltinEntityKind>, k: BuiltinEntityKind) -> (r: bool)
    ensures
        r == kinds@.contains(k),
{
    let n = kinds.len();
    let mut i: usize = 0;
    while i < n
        invariant
            n == kinds.len(),
            i <= n,
            forall|j: int| 0 <= j < i ==> kinds@[j] != k,
        decreases n - i,
    {
        if kinds[i] == k {
            return true;
        }
        i += 1;
    }
    false
}

/// Whether a kind supports a language.
pub fn supports(k: BuiltinEntityKind, l: Language) -> (r: bool)
    ensures
        r == spec_supports(k, l),
{
    !(k == BuiltinEntityKind::Percentage && l == Language::KO)
}

/// The kinds an extraction call attempts: the registry's kinds that the
/// language supports and the caller requested, in the registry's order.
/// A requested kind that the language does not support is skipped, not an
/// error.
pub fn resolve_kinds(language: Language, requested: Option<&Vec<BuiltinEntityKind>>) -> (r: Vec<
    BuiltinEntityKind,
>)
    ensures
        r@ == spec_effective_kinds(language, spec_req_view(requested)),
        forall|k: BuiltinEntityKind|
            r@.contains(k) <==> (spec_supports(k, language) && spec_requested(
                spec_req_view(requested),
                k,
            )),
{
    let ghost pred = spec_kind_pred(language, spec_req_view(requested));
    let all = BuiltinEntityKind::all();
    let n = all.len();
    let mut out: Vec<BuiltinEntityKind> = Vec::new();
    let mut i: usize = 0;
    while i < n
        invariant
            n == all.len(),
            all@ == BuiltinEntityKind::spec_all(),
            i <= n,
            pred == spec_kind_pred(language, spec_req_view(requested)),
            out@ == all@.take(i as int).filter(pred),
        decreases n - i,
    {
        let k = all[i];
        let keep = match requested {
            None => supports(k, language),
            Some(v) => supports(k, language) && kinds_contain(v, k),
        };
        proof {
            assert(all@.take(i + 1).drop_last() =~= all@.take(i as int));
            assert(all@.take(i + 1).last() == k);
            reveal_with_fuel(Seq::<BuiltinEntityKind>::filter, 2);
        }
        if keep {
            out.push(k);
        }
        proof {
            assert(out@ =~= all@.take(i + 1).filter(pred));
        }
        i += 1;
    }
    proof {
        assert(all@.take(n as int) =~= all@);
        assert forall|k: BuiltinEntityKind| out@.contains(k) implies pred(k) by {
            let idx = choose|idx: int| 0 <= idx < out@.len() && out@[idx] == k;
            all@.lemma_filter_pred(pred, idx);
        }
        assert forall|k: BuiltinEntityKind| pred(k) implies out@.contains(k) by {
            crate::builtin_entity::lemma_all_kinds_complete(k);
            let idx = choose|idx: int|
                0 <= idx < all@.len() && all@[idx] == k;
            all@.lemma_filter_contains(pred, idx);
        }
    }
    out
}

/// Places one entity into a sorted list, keeping it sorted.
fn insert_in_order(out: &mut Vec<BuiltinEntity>, e: BuiltinEntity)
    requires
        sorted_by(old(out)@, spec_entity_order()),
    ensures
        sorted_by(final(out)@, spec_entity_order()),
        final(out)@.to_multiset() == old(out)@.to_multiset().insert(e),
        final(out)@.len() == old(out)@.len() + 1,
{
    let ghost pre = out@;
    let mut j: usize = 0;
    while j < out.len() && entity_le(&out[j], &e)
        invariant
            out@ == pre,
            j <= out@.len(),
            forall|p: int| 0 <= p < j ==> spec_entity_leq(#[trigger] out@[p], e),
        decreases out@.len() - j,
    {
        j += 1;
    }
    out.insert(j, e);
    proof {
        let ord = spec_entity_order();
        vstd::seq_lib::to_multiset_insert(pre, j as int, e);
        pre.insert_ensures(j as int, e);
        let s = out@;
        assert(s == pre.insert(j as int, e));
        assert forall|p: int, q: int| 0 <= p < q < s.len() implies #[trigger] ord(s[p], s[q]) by {
            let ji = j as int;
            if q < ji {
                assert(ord(pre[p], pre[q]));
            } else if p < ji && q == ji {
                assert(spec_entity_leq(pre[p], e));
            } else if p < ji && q > ji {
                assert(ord(pre[p], pre[q - 1]));
            } else if p == ji {
                // e precedes everything it displaced
                assert(s[q] == pre[q - 1]);
                assert(!spec_entity_leq(pre[ji], e));
                assert(spec_entity_leq(e, pre[ji]));
                if q - 1 > ji {
                    assert(ord(pre[ji], pre[q - 1]));
                }
            } else {
                assert(ord(pre[p - 1], pre[q - 1]));
            }
        }
    }
}

/// The output order of extraction, as an executable comparison.
fn entity_le(a: &BuiltinEntity, b: &BuiltinEntity) -> (r: bool)
    ensures
        r == spec_entity_leq(*a, *b),
{
    a.range.start < b.range.start || (a.range.start == b.range.start && a.range.end >= b.range.end)
}

/// Converts the raw engine matches of the attempted kinds into entity
/// records, dropping each match of another kind and each match that fails
/// conversion, and orders the records by ascending start offset, the
/// longer span first at equal starts.
pub fn extract_entities(kinds: &Vec<BuiltinEntityKind>, matches: Vec<RawMatch>) -> (r: Vec<
    BuiltinEntity,
>)
    ensures
        r@.to_multiset() == spec_extracted(kinds@, matches@).to_multiset(),
        sorted_by(r@, spec_entity_order()),
        forall|i: int|
            0 <= i < r@.len() ==> kinds@.contains(#[trigger] r@[i].entity_kind),
{
    broadcast use vstd::seq_lib::group_to_multiset_ensures;
    broadcast use vstd::multiset::group_multiset_axioms;

    let mut work = matches;
    let mut out: Vec<BuiltinEntity> = Vec::new();
    let ghost all = work@;
    while work.len() > 0
        invariant
            sorted_by(out@, spec_entity_order()),
            spec_extracted(kinds@, all).to_multiset() == spec_extracted(
                kinds@,
                work@,
            ).to_multiset().add(out@.to_multiset()),
        decreases work.len(),
    {
        let ghost before = work@;
        let ghost out_before = out@;
        let m = work.remove(work.len() - 1);
        let ghost m_g = m;
        let ghost kept = kinds@.contains(m_g.kind) && spec_raw_ok(m_g);
        proof {
            assert(work@ =~= before.drop_last());
            assert(m_g == before.last());
            assert(spec_extracted(kinds@, before) == if kept {
                spec_extracted(kinds@, work@).push(spec_entity_of(m_g))
            } else {
                spec_extracted(kinds@, work@)
            });
        }
        if kinds_contain(kinds, m.kind) {
            match convert_match(m) {
                Ok(e) => {
                    proof {
                        assert(kept);
                        assert(e == spec_entity_of(m_g));
                    }
                    insert_in_order(&mut out, e);
                    proof {
                        let wm = spec_extracted(kinds@, work@).to_multiset();
                        let eg = spec_entity_of(m_g);
                        vstd::seq_lib::to_multiset_build(spec_extracted(kinds@, work@), eg);
                        assert(spec_extracted(kinds@, before).to_multiset() == wm.insert(eg));
                        assert(out@.to_multiset() == out_before.to_multiset().insert(eg));
                        assert(wm.insert(eg).add(out_before.to_multiset()) =~= wm.add(
                            out_before.to_multiset().insert(eg),
                        ));
                        assert(spec_extracted(kinds@, all).to_multiset() == spec_extracted(
                            kinds@,
                            work@,
                        ).to_multiset().add(out@.to_multiset()));
                    }
                },
                Err(_) => {
                    proof {
                        assert(!spec_raw_ok(m_g));
                        assert(!kept);
                    }
                },
            }
        }
    }
    proof {
        assert(work@ =~= Seq::<RawMatch>::empty());
        assert(spec_extracted(kinds@, work@) =~= Seq::<BuiltinEntity>::empty());
        assert(spec_extracted(kinds@, all).to_multiset() =~= out@.to_multiset());
        lemma_extracted_kinds(kinds@, all);
        assert forall|i: int| 0 <= i < out@.len() implies kinds@.contains(
            #[trigger] out@[i].entity_kind,
        ) by {
            let ext = spec_extracted(kinds@, all);
            assert(out@.to_multiset().count(out@[i]) > 0);
            assert(ext.to_multiset().count(out@[i]) > 0);
            assert(ext.contains(out@[i]));
            let w = choose|w: int| 0 <= w < ext.len() && ext[w] == out@[i];
            assert(kinds@.contains(ext[w].entity_kind));
        }
    }
    out
}

/// The parser facade's decision step, applied to the outcome of one
/// engine invocation: an engine failure fails the whole call; otherwise
/// the raw matches of the supported and requested kinds are converted,
/// the rest dropped, and the records returned ordered by position.
pub fn extract_from_engine_output(
    language: Language,
    requested_kinds: Option<&Vec<BuiltinEntityKind>>,
    engine_output: Result<Vec<RawMatch>, String>,
) -> (r: Result<Vec<BuiltinEntity>, ExtractError>)
    ensures
        engine_output is Err ==> r == Result::<Vec<BuiltinEntity>, ExtractError>::Err(
            (ExtractError::Engine { message: engine_output->Err_0 }),
        ),
        engine_output is Ok ==> {
            &&& r is Ok
            &&& r->Ok_0@.to_multiset() == spec_extracted(
                spec_effective_kinds(language, spec_req_view(requested_kinds)),
                engine_output->Ok_0@,
            ).to_multiset()
            &&& sorted_by(r->Ok_0@, spec_entity_order())
            &&& forall|i: int|
                0 <= i < r->Ok_0@.len() ==> spec_supports(
                    #[trigger] r->Ok_0@[i].entity_kind,
                    language,
                ) && spec_requested(spec_req_view(requested_kinds), r->Ok_0@[i].entity_kind)
        },
{
    match engine_output {
        Err(message) => Err(ExtractError::Engine { message }),
        Ok(matches) => {
            let kinds = resolve_kinds(language, requested_kinds);
            let out = extract_entities(&kinds, matches);
            Ok(out)
        },
    }
}

/// Requesting only kinds that the language does not support yields no
/// entities, and no error.
pub proof fn lemma_unsupported_kinds_yield_nothing(
    language: Language,
    requested: Seq<BuiltinEntityKind>,
    raws: Seq<RawMatch>,
)
    requires
        forall|k: BuiltinEntityKind| requested.contains(k) ==> !spec_supports(k, language),
    ensures
        spec_extracted(spec_effective_kinds(language, Some(requested)), raws).len() == 0,
{
    let kinds = spec_effective_kinds(language, Some(requested));
    let pred = spec_kind_pred(language, Some(requested));
    if kinds.len() > 0 {
        BuiltinEntityKind::spec_all().lemma_filter_pred(pred, 0);
        assert(pred(kinds[0]));
        assert(false);
    }
    lemma_no_kinds_no_entities(kinds, raws);
}

} // verus!
