use vstd::prelude::*;

use crate::errors::ExtractionError;
use crate::json::JsonValue;
use crate::json::json_doc_of;
use crate::json::lookup;
use crate::json::parse_json;
use crate::json::spec_lookup;

verus! {

/// The `syns` field of a provider document entry, reached through its `meta`
/// object; `None` where any link of that path is missing or not an object.
pub open spec fn spec_syns_of(entry: JsonValue) -> Option<JsonValue> {
    match entry {
        JsonValue::Obj(fields) => match spec_lookup(fields@, "meta"@) {
            Some(meta) => match meta {
                JsonValue::Obj(meta_fields) => spec_lookup(meta_fields@, "syns"@),
                _ => None,
            },
            None => None,
        },
        _ => None,
    }
}

/// The members of one synonym cluster, in order; `None` unless the cluster
/// is an array whose members are all strings.
pub open spec fn spec_cluster_strings(cluster: JsonValue) -> Option<Seq<Seq<char>>> {
    match cluster {
        JsonValue::Arr(members) => if forall|k: int|
            0 <= k < members@.len() ==> members@[k] is Str {
            Some(Seq::new(members@.len(), |k: int| members@[k]->Str_0@))
        } else {
            None
        },
        _ => None,
    }
}

/// The first `n` clusters flattened in order, cluster by cluster, member by
/// member; the first shape violation aborts the whole extraction.
pub open spec fn spec_flatten_prefix(clusters: Seq<JsonValue>, n: int) -> Result<
    Seq<Seq<char>>,
    ExtractionError,
>
    decreases n,
{
    if n <= 0 {
        Ok(Seq::empty())
    } else {
        match spec_flatten_prefix(clusters, n - 1) {
            Ok(pre) => match spec_cluster_strings(clusters[n - 1]) {
                Some(ms) => Ok(pre + ms),
                None => Err(ExtractionError::UnexpectedShape),
            },
            Err(e) => Err(e),
        }
    }
}

/// What extraction yields on a parsed provider document: the flattened
/// synonym clusters of the first entry, or the failure of the first step
/// that cannot proceed.
pub open spec fn spec_extract(doc: JsonValue) -> Result<Seq<Seq<char>>, ExtractionError> {
    match doc {
        JsonValue::Arr(entries) => if entries@.len() == 0 {
            Err(ExtractionError::EmptyDocument)
        } else {
            match spec_syns_of(entries@[0]) {
                None => Err(ExtractionError::MissingField),
                Some(syns) => match syns {
                    JsonValue::Arr(clusters) => spec_flatten_prefix(
                        clusters@,
                        clusters@.len() as int,
                    ),
                    _ => Err(ExtractionError::UnexpectedShape),
                },
            }
        },
        _ => Err(ExtractionError::MalformedJson),
    }
}

/// Once a prefix of the clusters fails the shape check, every longer prefix
/// fails the same way: extraction never recovers into a partial list.
pub proof fn lemma_flatten_prefix_err(clusters: Seq<JsonValue>, n: int, m: int)
    requires
        0 <= n <= m,
        spec_flatten_prefix(clusters, n) is Err,
    ensures
        spec_flatten_prefix(clusters, m) == spec_flatten_prefix(clusters, n),
    decreases m - n,
{
    if m > n {
        lemma_flatten_prefix_err(clusters, n, m - 1);
    }
}

/// The in-order concatenation of already-extracted cluster contents.
pub open spec fn spec_concat_clusters(parts: Seq<Seq<Seq<char>>>) -> Seq<Seq<char>>
    decreases parts.len(),
{
    if parts.len() == 0 {
        Seq::empty()
    } else {
        spec_concat_clusters(parts.drop_last()) + parts.last()
    }
}

proof fn lemma_flatten_prefix_ok(clusters: Seq<JsonValue>, parts: Seq<Seq<Seq<char>>>, n: int)
    requires
        0 <= n <= clusters.len(),
        parts.len() == clusters.len(),
        forall|i: int| 0 <= i < clusters.len() ==> spec_cluster_strings(clusters[i]) == Some(
            parts[i],
        ),
    ensures
        spec_flatten_prefix(clusters, n) == Ok::<Seq<Seq<char>>, ExtractionError>(
            spec_concat_clusters(parts.take(n)),
        ),
    decreases n,
{
    if n > 0 {
        lemma_flatten_prefix_ok(clusters, parts, n - 1);
        assert(parts.take(n).drop_last() =~= parts.take(n - 1));
        assert(parts.take(n).last() == parts[n - 1]);
    } else {
        assert(parts.take(0).len() == 0);
    }
}

/// Law: on a document of the expected shape, extraction returns every
/// cluster's members flattened in source order, cluster by cluster, member
/// by member. `parts` names what each cluster holds, `clusters` the `syns`
/// array of the first entry.
pub proof fn lemma_extract_well_formed(
    doc: JsonValue,
    clusters: Seq<JsonValue>,
    parts: Seq<Seq<Seq<char>>>,
)
    requires
        doc matches JsonValue::Arr(entries) && (entries@.len() > 0 && (spec_syns_of(
            entries@[0],
        ) matches Some(syns) && (syns matches JsonValue::Arr(cs) && cs@ == clusters))),
        parts.len() == clusters.len(),
        forall|i: int| 0 <= i < clusters.len() ==> spec_cluster_strings(clusters[i]) == Some(
            parts[i],
        ),
    ensures
        spec_extract(doc) == Ok::<Seq<Seq<char>>, ExtractionError>(spec_concat_clusters(parts)),
{
    lemma_flatten_prefix_ok(clusters, parts, clusters.len() as int);
    assert(parts.take(clusters.len() as int) =~= parts);
}

/// Law: a document whose first entry does not lead to a `syns` field fails
/// as a whole with the missing-field error; no partial list is returned.
pub proof fn lemma_missing_syns(doc: JsonValue)
    requires
        doc matches JsonValue::Arr(entries) && entries@.len() > 0 && spec_syns_of(entries@[0])
            is None,
    ensures
        spec_extract(doc) == Err::<Seq<Seq<char>>, ExtractionError>(ExtractionError::MissingField),
{
}

proof fn lemma_flatten_prefix_err_kind(clusters: Seq<JsonValue>, n: int)
    requires
        spec_flatten_prefix(clusters, n) is Err,
    ensures
        spec_flatten_prefix(clusters, n) == Err::<Seq<Seq<char>>, ExtractionError>(
            ExtractionError::UnexpectedShape,
        ),
    decreases n,
{
    if n > 0 && spec_flatten_prefix(clusters, n - 1) is Err {
        lemma_flatten_prefix_err_kind(clusters, n - 1);
    }
}

/// Law: one member of one cluster that is not a string (a number, say)
/// spoils the whole extraction: the result is the shape error, never a
/// partial list with the bad member left out.
pub proof fn lemma_bad_member_spoils_all(
    doc: JsonValue,
    clusters: Seq<JsonValue>,
    i: int,
    j: int,
)
    requires
        doc matches JsonValue::Arr(entries) && (entries@.len() > 0 && (spec_syns_of(
            entries@[0],
        ) matches Some(syns) && (syns matches JsonValue::Arr(cs) && cs@ == clusters))),
        0 <= i < clusters.len(),
        clusters[i] matches JsonValue::Arr(members) && (0 <= j < members@.len() && !(members@[j]
            is Str)),
    ensures
        spec_extract(doc) == Err::<Seq<Seq<char>>, ExtractionError>(
            ExtractionError::UnexpectedShape,
        ),
{
    let members = clusters[i]->Arr_0;
    assert(!(forall|k: int| 0 <= k < members@.len() ==> members@[k] is Str)) by {
        assert(0 <= j < members@.len() && !(members@[j] is Str));
    }
    assert(spec_cluster_strings(clusters[i]) is None);
    if spec_flatten_prefix(clusters, i) is Err {
        lemma_flatten_prefix_err(clusters, i, clusters.len() as int);
        lemma_flatten_prefix_err_kind(clusters, clusters.len() as int);
    } else {
        assert(spec_flatten_prefix(clusters, i + 1) == Err::<Seq<Seq<char>>, ExtractionError>(
            ExtractionError::UnexpectedShape,
        ));
        lemma_flatten_prefix_err(clusters, i + 1, clusters.len() as int);
    }
}

/// Reads the flattened synonym list out of a parsed provider document,
/// failing closed on the first shape violation: a partial list is never
/// returned.
#[verifier::loop_isolation(false)]
pub fn extract_from_doc(doc: &JsonValue) -> (r: Result<Vec<String>, ExtractionError>)
    ensures
        match r {
            Ok(v) => spec_extract(*doc) == Ok::<Seq<Seq<char>>, ExtractionError>(v.deep_view()),
            Err(e) => spec_extract(*doc) == Err::<Seq<Seq<char>>, ExtractionError>(e),
        },
{
    let entries = match doc {
        JsonValue::Arr(entries) => entries,
        _ => {
            return Err(ExtractionError::MalformedJson);
        },
    };
    if entries.len() == 0 {
        return Err(ExtractionError::EmptyDocument);
    }
    let fields = match &entries[0] {
        JsonValue::Obj(fields) => fields,
        _ => {
            return Err(ExtractionError::MissingField);
        },
    };
    let meta_key: String = "meta".to_owned();
    let meta_fields = match lookup(fields, &meta_key) {
        Some(JsonValue::Obj(meta_fields)) => meta_fields,
        Some(_) => {
            return Err(ExtractionError::MissingField);
        },
        None => {
            return Err(ExtractionError::MissingField);
        },
    };
    let syns_key: String = "syns".to_owned();
    let syns = match lookup(meta_fields, &syns_key) {
        Some(syns) => syns,
        None => {
            return Err(ExtractionError::MissingField);
        },
    };
    let clusters = match syns {
        JsonValue::Arr(clusters) => clusters,
        _ => {
            return Err(ExtractionError::UnexpectedShape);
        },
    };
    let mut out: Vec<String> = Vec::new();
    proof {
        assert(out.deep_view() =~= Seq::<Seq<char>>::empty());
    }
    let n_clusters = clusters.len();
    let mut i: usize = 0;
    while i < n_clusters
        invariant
            n_clusters == clusters@.len(),
            0 <= i <= n_clusters,
            spec_extract(*doc) == spec_flatten_prefix(clusters@, n_clusters as int),
            spec_flatten_prefix(clusters@, i as int) == Ok::<Seq<Seq<char>>, ExtractionError>(
                out.deep_view(),
            ),
        decreases n_clusters - i,
    {
        let cluster = &clusters[i];
        let members = match cluster {
            JsonValue::Arr(members) => members,
            _ => {
                proof {
                    assert(spec_flatten_prefix(clusters@, i + 1) == Err::<
                        Seq<Seq<char>>,
                        ExtractionError,
                    >(ExtractionError::UnexpectedShape));
                    lemma_flatten_prefix_err(clusters@, i + 1, n_clusters as int);
                }
                return Err(ExtractionError::UnexpectedShape);
            },
        };
        let ghost pre = out.deep_view();
        let n_members = members.len();
        let mut j: usize = 0;
        while j < n_members
            invariant
                n_members == members@.len(),
                0 <= j <= n_members,
                forall|k: int| 0 <= k < j ==> members@[k] is Str,
                out.deep_view() == pre + Seq::new(j as nat, |k: int| members@[k]->Str_0@),
            decreases n_members - j,
        {
            let member = &members[j];
            match member {
                JsonValue::Str(s) => {
                    let ghost outv_before = out@;
                    let pushed = s.clone();
                    proof {
                        assert(pushed@ == members@[j as int]->Str_0@);
                    }
                    out.push(pushed);
                    proof {
                        let new_dv = out.deep_view();
                        let old_dv = pre + Seq::new(j as nat, |k: int| members@[k]->Str_0@);
                        let target = pre + Seq::new(
                            (j + 1) as nat,
                            |k: int| members@[k]->Str_0@,
                        );
                        assert(out@.len() == outv_before.len() + 1);
                        assert(new_dv.len() == target.len());
                        assert forall|k: int| 0 <= k < new_dv.len() implies new_dv[k]
                            == target[k] by {
                            assert(new_dv[k] == out@[k].deep_view());
                            if k < outv_before.len() {
                                assert(out@[k] == outv_before[k]);
                                assert(new_dv[k] == old_dv[k]);
                            } else {
                                assert(out@[k]@ == members@[j as int]->Str_0@);
                            }
                        }
                        assert(new_dv =~= target);
                    }
                },
                _ => {
                    proof {
                        assert(!(forall|k: int|
                            0 <= k < members@.len() ==> members@[k] is Str)) by {
                            assert(0 <= j < members@.len() && !(members@[j as int] is Str));
                        }
                        assert(spec_cluster_strings(clusters@[i as int]) is None);
                        assert(spec_flatten_prefix(clusters@, i + 1) == Err::<
                            Seq<Seq<char>>,
                            ExtractionError,
                        >(ExtractionError::UnexpectedShape));
                        lemma_flatten_prefix_err(clusters@, i + 1, n_clusters as int);
                    }
                    return Err(ExtractionError::UnexpectedShape);
                },
            }
            j += 1;
        }
        proof {
            assert(spec_cluster_strings(clusters@[i as int]) == Some(
                Seq::new(members@.len(), |k: int| members@[k]->Str_0@),
            ));
            assert(spec_flatten_prefix(clusters@, i + 1) == Ok::<
                Seq<Seq<char>>,
                ExtractionError,
            >(out.deep_view()));
        }
        i += 1;
    }
    Ok(out)
}

/// The whole pipeline on raw provider bytes: parse, then extract; invalid
/// JSON is the parse step's failure.
pub fn extract_synonyms(raw_response: &[u8]) -> (r: Result<Vec<String>, ExtractionError>)
    ensures
        match json_doc_of(raw_response@) {
            None => r == Err::<Vec<String>, ExtractionError>(ExtractionError::MalformedJson),
            Some(doc) => match r {
                Ok(v) => spec_extract(doc) == Ok::<Seq<Seq<char>>, ExtractionError>(
                    v.deep_view(),
                ),
                Err(e) => spec_extract(doc) == Err::<Seq<Seq<char>>, ExtractionError>(e),
            },
        },
{
    match parse_json(raw_response) {
        None => Err(ExtractionError::MalformedJson),
        Some(doc) => extract_from_doc(&doc),
    }
}

} // verus!
