//! Rewrites of the JSON blobs stored with sessions, applied by the schema
//! migrations. Each one leaves text that is not a JSON object unchanged.
use vstd::prelude::*;
use vstd::string::*;
use crate::json::{json_parsed, json_written, lemma_object_shape, members_shape, parse_json, write_json, Json, JsonNumber, JsonShape};

verus! {

/// The first member of `m` named `k`.
pub open spec fn member(m: Seq<(Seq<char>, JsonShape)>, k: Seq<char>) -> Option<JsonShape>
    decreases m.len(),
{
    if m.len() == 0 {
        None
    } else if m[0].0 == k {
        Some(m[0].1)
    } else {
        member(m.drop_first(), k)
    }
}

/// `m` with the first member named `k` set to `v`, or with `k: v` added
/// last when there is none.
pub open spec fn with_member(m: Seq<(Seq<char>, JsonShape)>, k: Seq<char>, v: JsonShape) -> Seq<(Seq<char>, JsonShape)>
    decreases m.len(),
{
    if m.len() == 0 {
        seq![(k, v)]
    } else if m[0].0 == k {
        m.update(0, (k, v))
    } else {
        seq![m[0]] + with_member(m.drop_first(), k, v)
    }
}

/// The text written for `doc`, or `fallback` when it cannot be written.
pub open spec fn written_or(doc: JsonShape, fallback: Seq<char>) -> Seq<char> {
    match json_written(doc) {
        Some(t) => t,
        None => fallback,
    }
}

/// The compaction state put in place when a blob has none.
pub open spec fn default_compaction() -> JsonShape {
    JsonShape::Object(seq![("compaction"@, JsonShape::Object(seq![("compaction_count"@, JsonShape::Number("0"@))]))])
}

/// The strategy-state document for the members `m`: only the
/// `compaction` member, the default when `m` has none.
pub open spec fn strategy_state_doc(m: Seq<(Seq<char>, JsonShape)>) -> JsonShape {
    let c = match member(m, "compaction"@) {
        Some(v) => v,
        None => default_compaction(),
    };
    JsonShape::Object(seq![("compaction"@, c)])
}

/// A strategy-state blob keeps only its `compaction` member, which is
/// added when missing.
pub open spec fn strategy_state_rewritten(raw: Seq<char>) -> Seq<char> {
    match json_parsed(raw) {
        Some(JsonShape::Object(m)) => written_or(strategy_state_doc(m), raw),
        _ => raw,
    }
}

/// The profile document for the members `m` with `strategy` set to
/// "compaction".
pub open spec fn profile_strategy_doc(m: Seq<(Seq<char>, JsonShape)>) -> JsonShape {
    JsonShape::Object(with_member(m, "strategy"@, JsonShape::Text("compaction"@)))
}

/// A profile blob's `strategy` becomes "compaction".
pub open spec fn profile_strategy_rewritten(raw: Seq<char>) -> Seq<char> {
    match json_parsed(raw) {
        Some(JsonShape::Object(m)) => written_or(profile_strategy_doc(m), raw),
        _ => raw,
    }
}

/// The profile document for the members `m` with a bare-string `model`
/// turned into `{"single": model}`; any other model is kept, and without a
/// model there is no document to write.
pub open spec fn profile_model_doc(m: Seq<(Seq<char>, JsonShape)>) -> Option<JsonShape> {
    match member(m, "model"@) {
        None => None,
        Some(JsonShape::Text(s)) => Some(
            JsonShape::Object(with_member(m, "model"@, JsonShape::Object(seq![("single"@, JsonShape::Text(s))]))),
        ),
        Some(_) => Some(JsonShape::Object(m)),
    }
}

/// A profile blob's bare-string `model` becomes `{"single": model}`; a
/// profile without a model is left as it is.
pub open spec fn profile_model_rewritten(raw: Seq<char>) -> Seq<char> {
    match json_parsed(raw) {
        Some(JsonShape::Object(m)) => match profile_model_doc(m) {
            Some(d) => written_or(d, raw),
            None => raw,
        },
        _ => raw,
    }
}

/// The `profile` member of a metadata document's members, when it is an
/// object.
pub open spec fn metadata_profile_doc(root: Seq<(Seq<char>, JsonShape)>) -> Option<JsonShape> {
    match member(root, "profile"@) {
        Some(JsonShape::Object(p)) => Some(JsonShape::Object(p)),
        _ => None,
    }
}

/// A metadata blob's `profile` object goes through the profile model
/// rewrite (written out, rewritten, read back).
pub open spec fn metadata_model_rewritten(raw: Seq<char>) -> Seq<char> {
    match json_parsed(raw) {
        Some(JsonShape::Object(root)) => match metadata_profile_doc(root) {
            Some(p) => match json_written(p) {
                Some(pt) => match json_parsed(profile_model_rewritten(pt)) {
                    Some(np) => written_or(JsonShape::Object(with_member(root, "profile"@, np)), raw),
                    None => raw,
                },
                None => raw,
            },
            None => raw,
        },
        _ => raw,
    }
}

/// The position of the first member named `k`.
fn member_index(m: &Vec<(String, Json)>, k: &str) -> (r: Option<usize>)
    ensures
        match r {
            Some(i) => {
                &&& i < m@.len()
                &&& m@[i as int].0@ == k@
                &&& member(members_shape(m@), k@) == Some(m@[i as int].1@)
                &&& forall|j: int| 0 <= j < i ==> (#[trigger] m@[j]).0@ != k@
            },
            None => member(members_shape(m@), k@) is None,
        },
{
    let key = String::from_str(k);
    let n = m.len();
    let mut i: usize = 0;
    assert(members_shape(m@).skip(0) =~= members_shape(m@));
    while i < n
        invariant
            n == m@.len(),
            key@ == k@,
            i <= n,
            forall|j: int| 0 <= j < i ==> (#[trigger] m@[j]).0@ != k@,
            member(members_shape(m@), k@) == member(members_shape(m@).skip(i as int), k@),
        decreases n - i,
    {
        assert(members_shape(m@).skip(i as int).drop_first() =~= members_shape(m@).skip(i + 1));
        if m[i].0 == key {
            return Some(i);
        }
        i = i + 1;
    }
    None
}

/// Sets member `k` to `v` (see [`with_member`]).
fn set_member(m: &mut Vec<(String, Json)>, k: &str, v: Json)
    ensures
        members_shape(final(m)@) == with_member(members_shape(old(m)@), k@, v@),
{
    let ghost before = members_shape(m@);
    match member_index(m, k) {
        Some(i) => {
            proof {
                assert forall|j: int| 0 <= j < i implies before[j].0 != k@ by {
                    assert(m@[j].0@ != k@);
                }
                lemma_with_member_at(before, k@, v@, i as int);
            }
            m.set(i, (String::from_str(k), v));
            assert(members_shape(m@) =~= before.update(i as int, (k@, v@)));
        },
        None => {
            proof {
                lemma_with_member_absent(before, k@, v@);
            }
            m.push((String::from_str(k), v));
            assert(members_shape(m@) =~= before.push((k@, v@)));
        },
    }
}

/// Setting a member found first at `i` replaces it there.
proof fn lemma_with_member_at(m: Seq<(Seq<char>, JsonShape)>, k: Seq<char>, v: JsonShape, i: int)
    requires
        0 <= i < m.len(),
        m[i].0 == k,
        member(m, k) == Some(m[i].1),
        forall|j: int| 0 <= j < i ==> m[j].0 != k,
    ensures
        with_member(m, k, v) == m.update(i, (k, v)),
    decreases m.len(),
{
    if i > 0 {
        lemma_with_member_at(m.drop_first(), k, v, i - 1);
        assert(with_member(m, k, v) =~= m.update(i, (k, v)));
    } else {
        assert(with_member(m, k, v) =~= m.update(i, (k, v)));
    }
}

/// Setting an absent member adds it last.
proof fn lemma_with_member_absent(m: Seq<(Seq<char>, JsonShape)>, k: Seq<char>, v: JsonShape)
    requires
        member(m, k) is None,
    ensures
        with_member(m, k, v) == m.push((k, v)),
    decreases m.len(),
{
    if m.len() > 0 {
        lemma_with_member_absent(m.drop_first(), k, v);
        assert(with_member(m, k, v) =~= m.push((k, v)));
    } else {
        assert(with_member(m, k, v) =~= m.push((k, v)));
    }
}

/// Writes `doc`, or gives back `fallback` when it cannot be written.
fn write_or(doc: &Json, fallback: &str) -> (r: String)
    ensures
        r@ == written_or(doc@, fallback@),
{
    match write_json(doc) {
        Some(t) => t,
        None => String::from_str(fallback),
    }
}

/// The strategy-state document for the members `m`: only its
/// `compaction` member, `{"compaction": {"compaction_count": 0}}` when it
/// has none.
pub fn strategy_state_document(m: Vec<(String, Json)>) -> (r: Json)
    ensures
        r@ == strategy_state_doc(members_shape(m@)),
{
    let mut m = m;
    let c = match member_index(&m, "compaction") {
        Some(i) => m.remove(i).1,
        None => {
            let zero = JsonNumber::from_u64(0);
            let mut count: Vec<(String, Json)> = Vec::new();
            count.push((String::from_str("compaction_count"), Json::Number(zero)));
            let mut inner: Vec<(String, Json)> = Vec::new();
            inner.push((String::from_str("compaction"), Json::Object(count)));
            proof {
                lemma_object_shape(count);
                lemma_object_shape(inner);
                reveal_strlit("compaction_count");
                reveal_strlit("compaction");
                reveal_strlit("0");
                assert(zero@ =~= "0"@);
                assert(members_shape(count@) =~= seq![("compaction_count"@, JsonShape::Number("0"@))]);
                assert(members_shape(inner@) =~= seq![("compaction"@, shape_of_object(count@))]);
            }
            Json::Object(inner)
        },
    };
    let mut out: Vec<(String, Json)> = Vec::new();
    out.push((String::from_str("compaction"), c));
    proof {
        reveal_strlit("compaction");
        lemma_object_shape(out);
        assert(members_shape(out@) =~= seq![("compaction"@, c@)]);
    }
    Json::Object(out)
}

/// Rewrites a strategy-state blob to keep only its `compaction` member,
/// adding `{"compaction": {"compaction_count": 0}}` when it is missing.
pub fn rewrite_strategy_state(raw: &str) -> (r: String)
    ensures
        r@ == strategy_state_rewritten(raw@),
{
    let m = match parse_json(raw) {
        Some(Json::Object(m)) => m,
        _ => return String::from_str(raw),
    };
    proof {
        lemma_object_shape(m);
    }
    write_or(&strategy_state_document(m), raw)
}

/// The shape of an object with members `o`.
pub open spec fn shape_of_object(o: Seq<(String, Json)>) -> JsonShape {
    JsonShape::Object(members_shape(o))
}

/// The profile document for the members `m` with `strategy` set to
/// "compaction".
pub fn profile_strategy_document(m: Vec<(String, Json)>) -> (r: Json)
    ensures
        r@ == profile_strategy_doc(members_shape(m@)),
{
    let mut m = m;
    proof {
        reveal_strlit("strategy");
        reveal_strlit("compaction");
    }
    set_member(&mut m, "strategy", Json::Text(String::from_str("compaction")));
    proof {
        lemma_object_shape(m);
    }
    Json::Object(m)
}

/// Sets a profile blob's `strategy` to "compaction".
pub fn rewrite_profile_strategy(raw: &str) -> (r: String)
    ensures
        r@ == profile_strategy_rewritten(raw@),
{
    let m = match parse_json(raw) {
        Some(Json::Object(m)) => m,
        _ => return String::from_str(raw),
    };
    proof {
        lemma_object_shape(m);
    }
    write_or(&profile_strategy_document(m), raw)
}

/// The profile document for the members `m` with a bare-string `model`
/// turned into `{"single": model}`; `None` when `m` has no model.
pub fn profile_model_document(m: Vec<(String, Json)>) -> (r: Option<Json>)
    ensures
        match r {
            Some(j) => profile_model_doc(members_shape(m@)) == Some(j@),
            None => profile_model_doc(members_shape(m@)) is None,
        },
{
    let mut m = m;
    let i = match member_index(&m, "model") {
        Some(i) => i,
        None => return None,
    };
    let single = match &m[i].1 {
        Json::Text(s) => Some(s.clone()),
        _ => None,
    };
    match single {
        Some(s) => {
            let mut wrapped: Vec<(String, Json)> = Vec::new();
            wrapped.push((String::from_str("single"), Json::Text(s)));
            proof {
                lemma_object_shape(wrapped);
                reveal_strlit("single");
                assert(members_shape(wrapped@) =~= seq![("single"@, JsonShape::Text(s@))]);
            }
            set_member(&mut m, "model", Json::Object(wrapped));
        },
        None => {},
    }
    proof {
        lemma_object_shape(m);
    }
    Some(Json::Object(m))
}

/// Turns a profile blob's bare-string `model` into `{"single": model}`.
pub fn rewrite_profile_model(raw: &str) -> (r: String)
    ensures
        r@ == profile_model_rewritten(raw@),
{
    let m = match parse_json(raw) {
        Some(Json::Object(m)) => m,
        _ => return String::from_str(raw),
    };
    proof {
        lemma_object_shape(m);
    }
    match profile_model_document(m) {
        Some(d) => write_or(&d, raw),
        None => String::from_str(raw),
    }
}

/// The `profile` member of a metadata document's members, when it is an
/// object.
pub fn metadata_profile(root: &Vec<(String, Json)>) -> (r: Option<&Json>)
    ensures
        match r {
            Some(p) => metadata_profile_doc(members_shape(root@)) == Some(p@),
            None => metadata_profile_doc(members_shape(root@)) is None,
        },
{
    let i = match member_index(root, "profile") {
        Some(i) => i,
        None => return None,
    };
    match &root[i].1 {
        Json::Object(_) => Some(&root[i].1),
        _ => None,
    }
}

/// The metadata document for the members `root` with its `profile` set to
/// `profile`.
pub fn metadata_document(root: Vec<(String, Json)>, profile: Json) -> (r: Json)
    ensures
        r@ == JsonShape::Object(with_member(members_shape(root@), "profile"@, profile@)),
{
    let mut root = root;
    proof {
        reveal_strlit("profile");
    }
    set_member(&mut root, "profile", profile);
    proof {
        lemma_object_shape(root);
    }
    Json::Object(root)
}

/// Applies [`rewrite_profile_model`] to the `profile` object inside a
/// metadata blob.
pub fn rewrite_metadata_blob_model(raw: &str) -> (r: String)
    ensures
        r@ == metadata_model_rewritten(raw@),
{
    let root = match parse_json(raw) {
        Some(Json::Object(m)) => m,
        _ => return String::from_str(raw),
    };
    proof {
        lemma_object_shape(root);
    }
    let profile_text = match metadata_profile(&root) {
        Some(p) => match write_json(p) {
            Some(t) => t,
            None => return String::from_str(raw),
        },
        None => return String::from_str(raw),
    };
    let rewritten = rewrite_profile_model(profile_text.as_str());
    let new_profile = match parse_json(rewritten.as_str()) {
        Some(p) => p,
        None => return String::from_str(raw),
    };
    write_or(&metadata_document(root, new_profile), raw)
}

/// serde_json writes `d`, and reads back exactly the document it wrote. It
/// does so for the documents it read itself (object members come back in
/// key order), except for floating-point numbers whose text its default
/// best-effort float parsing does not read back exactly.
pub open spec fn reads_back(d: JsonShape) -> bool {
    json_written(d) matches Some(t) && json_parsed(t) == Some(d)
}

/// A profile's members after the model rewrite: a bare-string model `s`
/// becomes `{"single": s}`; anything else stays.
pub open spec fn model_fixed(pm: Seq<(Seq<char>, JsonShape)>) -> Seq<(Seq<char>, JsonShape)> {
    match member(pm, "model"@) {
        Some(JsonShape::Text(s)) => with_member(pm, "model"@, JsonShape::Object(seq![("single"@, JsonShape::Text(s))])),
        _ => pm,
    }
}

/// The document the profile model rewrite of a profile with members `pm`
/// writes is read back exactly.
pub open spec fn profile_doc_reads_back(pm: Seq<(Seq<char>, JsonShape)>) -> bool {
    match profile_model_doc(pm) {
        Some(d) => reads_back(d),
        None => true,
    }
}

/// The documents the metadata model rewrite of a blob with members `root`
/// writes are read back exactly: the profile object, its rewritten form,
/// and the whole rewritten blob.
pub open spec fn metadata_docs_read_back(root: Seq<(Seq<char>, JsonShape)>, pm: Seq<(Seq<char>, JsonShape)>) -> bool {
    &&& reads_back(JsonShape::Object(pm))
    &&& profile_doc_reads_back(pm)
    &&& reads_back(JsonShape::Object(with_member(root, "profile"@, JsonShape::Object(model_fixed(pm)))))
}

/// The member set by `with_member` is found first.
proof fn lemma_member_of_with_member(m: Seq<(Seq<char>, JsonShape)>, k: Seq<char>, v: JsonShape)
    ensures
        member(with_member(m, k, v), k) == Some(v),
    decreases m.len(),
{
    if m.len() > 0 && m[0].0 != k {
        lemma_member_of_with_member(m.drop_first(), k, v);
        assert((seq![m[0]] + with_member(m.drop_first(), k, v)).drop_first() =~= with_member(m.drop_first(), k, v));
    }
}

/// Setting a member twice keeps the second value only.
proof fn lemma_with_member_twice(m: Seq<(Seq<char>, JsonShape)>, k: Seq<char>, v: JsonShape, w: JsonShape)
    ensures
        with_member(with_member(m, k, v), k, w) == with_member(m, k, w),
    decreases m.len(),
{
    if m.len() == 0 {
        assert(with_member(seq![(k, v)], k, w) =~= seq![(k, w)]);
    } else if m[0].0 == k {
        assert(with_member(m.update(0, (k, v)), k, w) =~= m.update(0, (k, w)));
    } else {
        lemma_with_member_twice(m.drop_first(), k, v, w);
        let t = seq![m[0]] + with_member(m.drop_first(), k, v);
        assert(t.drop_first() =~= with_member(m.drop_first(), k, v));
        assert(with_member(t, k, w) =~= seq![m[0]] + with_member(m.drop_first(), k, w));
    }
}

/// Setting a member to the value it already has first changes nothing.
proof fn lemma_with_member_same(m: Seq<(Seq<char>, JsonShape)>, k: Seq<char>, v: JsonShape)
    requires
        member(m, k) == Some(v),
    ensures
        with_member(m, k, v) == m,
    decreases m.len(),
{
    if m[0].0 == k {
        assert(m.update(0, (k, v)) =~= m);
    } else {
        lemma_with_member_same(m.drop_first(), k, v);
        assert(seq![m[0]] + m.drop_first() =~= m);
    }
}

/// A profile whose model is fixed needs no further fix.
proof fn lemma_model_fixed_stable(pm: Seq<(Seq<char>, JsonShape)>)
    ensures
        model_fixed(model_fixed(pm)) == model_fixed(pm),
        member(model_fixed(pm), "model"@) is None <==> member(pm, "model"@) is None,
        profile_model_doc(pm) is Some ==> profile_model_doc(pm) == Some(JsonShape::Object(model_fixed(pm))),
        profile_model_doc(model_fixed(pm)) is Some ==> profile_model_doc(model_fixed(pm)) == Some(
            JsonShape::Object(model_fixed(pm)),
        ),
{
    match member(pm, "model"@) {
        Some(JsonShape::Text(s)) => {
            lemma_member_of_with_member(pm, "model"@, JsonShape::Object(seq![("single"@, JsonShape::Text(s))]));
        },
        _ => {},
    }
}

/// The profile model rewrite of text that reads as a profile with members
/// `pm`, when the document it writes is read back exactly.
proof fn lemma_profile_rewrite_of(raw: Seq<char>, pm: Seq<(Seq<char>, JsonShape)>)
    requires
        json_parsed(raw) == Some(JsonShape::Object(pm)),
        profile_doc_reads_back(pm),
    ensures
        profile_model_rewritten(profile_model_rewritten(raw)) == profile_model_rewritten(raw),
        json_parsed(profile_model_rewritten(raw)) == Some(JsonShape::Object(model_fixed(pm))),
        member(pm, "model"@) is None ==> profile_model_rewritten(raw) == raw,
        member(pm, "model"@) is Some ==> json_written(JsonShape::Object(model_fixed(pm))) == Some(
            profile_model_rewritten(raw),
        ),
{
    lemma_model_fixed_stable(pm);
    match profile_model_doc(pm) {
        Some(d) => {
            let t = json_written(d)->0;
            assert(json_parsed(t) == Some(d));
            assert(profile_model_rewritten(t) == t);
        },
        None => {},
    }
}

/// The profile model rewrite is idempotent on every text whose written
/// document serde_json reads back exactly: a second rewrite changes
/// nothing. A text that is no JSON object, or whose profile has no model,
/// comes back unchanged; otherwise the result reads back as the profile
/// with a bare-string model `s` replaced by `{"single": s}` and all else
/// kept.
pub proof fn lemma_profile_model_rewrite_idempotent(raw: Seq<char>)
    requires
        json_parsed(raw) matches Some(JsonShape::Object(pm)) ==> profile_doc_reads_back(pm),
    ensures
        profile_model_rewritten(profile_model_rewritten(raw)) == profile_model_rewritten(raw),
        !(json_parsed(raw) matches Some(JsonShape::Object(_))) ==> profile_model_rewritten(raw) == raw,
        json_parsed(raw) matches Some(JsonShape::Object(pm)) ==> json_parsed(profile_model_rewritten(raw)) == Some(
            JsonShape::Object(model_fixed(pm)),
        ),
        json_parsed(raw) matches Some(JsonShape::Object(pm)) && member(pm, "model"@) is None
            ==> profile_model_rewritten(raw) == raw,
{
    match json_parsed(raw) {
        Some(JsonShape::Object(pm)) => {
            lemma_profile_rewrite_of(raw, pm);
        },
        _ => {},
    }
}

/// The metadata model rewrite is idempotent on every blob whose written
/// documents serde_json reads back exactly: a second rewrite changes
/// nothing. A blob that is no JSON object, or whose `profile` is missing or
/// no object, comes back unchanged; otherwise the result reads back as the
/// blob with only the profile's bare-string model `s` replaced by
/// `{"single": s}`.
pub proof fn lemma_metadata_model_rewrite_idempotent(raw: Seq<char>)
    requires
        json_parsed(raw) matches Some(JsonShape::Object(root)) ==> (metadata_profile_doc(root) matches Some(
            JsonShape::Object(pm),
        ) ==> metadata_docs_read_back(root, pm)),
    ensures
        metadata_model_rewritten(metadata_model_rewritten(raw)) == metadata_model_rewritten(raw),
        !(json_parsed(raw) matches Some(JsonShape::Object(root)) && metadata_profile_doc(root) is Some)
            ==> metadata_model_rewritten(raw) == raw,
        json_parsed(raw) matches Some(JsonShape::Object(root)) ==> (metadata_profile_doc(root) matches Some(
            JsonShape::Object(pm),
        ) ==> json_parsed(metadata_model_rewritten(raw)) == Some(
            JsonShape::Object(with_member(root, "profile"@, JsonShape::Object(model_fixed(pm)))),
        )),
        json_parsed(raw) matches Some(JsonShape::Object(root)) ==> (metadata_profile_doc(root) matches Some(
            JsonShape::Object(pm),
        ) ==> (!(member(pm, "model"@) matches Some(JsonShape::Text(_))) ==> json_parsed(
            metadata_model_rewritten(raw),
        ) == json_parsed(raw))),
{
    match json_parsed(raw) {
        Some(JsonShape::Object(root)) => match metadata_profile_doc(root) {
            Some(p) => {
                let pm = p->Object_0;
                if !(member(pm, "model"@) matches Some(JsonShape::Text(_))) {
                    assert(model_fixed(pm) == pm);
                    lemma_with_member_same(root, "profile"@, p);
                }
                assert(p == JsonShape::Object(pm));
                let pt = json_written(p)->0;
                assert(json_parsed(pt) == Some(p));
                lemma_profile_rewrite_of(pt, pm);
                lemma_model_fixed_stable(pm);
                let fixed = JsonShape::Object(model_fixed(pm));
                let root2 = with_member(root, "profile"@, fixed);
                let d2 = JsonShape::Object(root2);
                let y = json_written(d2)->0;
                assert(metadata_model_rewritten(raw) == y);
                assert(json_parsed(y) == Some(d2));
                // The second pass finds the fixed profile and leaves it.
                lemma_member_of_with_member(root, "profile"@, fixed);
                assert(metadata_profile_doc(root2) == Some(fixed));
                lemma_profile_rewrite_of(pt, pm);
                let pt2 = json_written(fixed)->0;
                if member(pm, "model"@) is None {
                    assert(model_fixed(pm) == pm);
                    assert(pt2 == pt);
                } else {
                    assert(pt2 == profile_model_rewritten(pt));
                }
                assert(json_parsed(profile_model_rewritten(pt2)) == Some(fixed));
                lemma_with_member_twice(root, "profile"@, fixed, fixed);
                assert(metadata_model_rewritten(y) == y);
            },
            None => {},
        },
        _ => {},
    }
}

} // verus!
