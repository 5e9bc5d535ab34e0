//! Laws of the extractor and validator, stated and proved against the same
//! specifications the executable functions are verified against.

use vstd::prelude::*;

use crate::enums::status_name;
use crate::enums::status_of_name;
use crate::enums::DiagnosisAction;
use crate::enums::DiagnosisStatus;
use crate::executor::after_first;
use crate::executor::extract_spec;
use crate::executor::payload_valid;
use crate::executor::up_to_fence;
use crate::json::json_of;
use crate::json::spec_lookup;
use crate::json::spec_merge;
use crate::json::spec_upsert;
use crate::json::JsonValue;
use crate::text::all_ws;
use crate::text::drop_leading_ws;
use crate::text::drop_trailing_ws;
use crate::text::find_from;
use crate::text::find_sub;
use crate::text::is_ws_char;
use crate::text::matches_at;
use crate::text::trim_spec;

verus! {

proof fn lemma_drop_leading_ws_len(s: Seq<char>)
    ensures
        drop_leading_ws(s).len() <= s.len(),
        s.len() > 0 && is_ws_char(s[0]) ==> drop_leading_ws(s).len() < s.len(),
    decreases s.len(),
{
    if s.len() > 0 && is_ws_char(s[0]) {
        lemma_drop_leading_ws_len(s.drop_first());
    }
}

proof fn lemma_drop_trailing_ws_len(s: Seq<char>)
    ensures
        drop_trailing_ws(s).len() <= s.len(),
    decreases s.len(),
{
    if s.len() > 0 && is_ws_char(s.last()) {
        lemma_drop_trailing_ws_len(s.drop_last());
    }
}

proof fn lemma_drop_leading_ws_all(s: Seq<char>)
    requires
        all_ws(s),
    ensures
        drop_leading_ws(s) == Seq::<char>::empty(),
    decreases s.len(),
{
    if s.len() == 0 {
        assert(s =~= Seq::<char>::empty());
    } else {
        lemma_drop_leading_ws_all(s.drop_first());
    }
}

proof fn lemma_drop_leading_ws_concat(a: Seq<char>, b: Seq<char>)
    requires
        all_ws(a),
    ensures
        drop_leading_ws(a + b) == drop_leading_ws(b),
    decreases a.len(),
{
    if a.len() == 0 {
        assert(a + b =~= b);
    } else {
        assert(is_ws_char((a + b)[0]));
        assert((a + b).drop_first() =~= a.drop_first() + b);
        lemma_drop_leading_ws_concat(a.drop_first(), b);
    }
}

proof fn lemma_drop_trailing_ws_concat(a: Seq<char>, b: Seq<char>)
    requires
        all_ws(b),
    ensures
        drop_trailing_ws(a + b) == drop_trailing_ws(a),
    decreases b.len(),
{
    if b.len() == 0 {
        assert(a + b =~= a);
    } else {
        assert((a + b).last() == b.last());
        assert(is_ws_char((a + b).last()));
        assert((a + b).drop_last() =~= a + b.drop_last());
        assert(all_ws(b.drop_last()));
        lemma_drop_trailing_ws_concat(a, b.drop_last());
    }
}

proof fn lemma_trim_fixed(p: Seq<char>)
    requires
        trim_spec(p) == p,
    ensures
        drop_leading_ws(p) == p,
        drop_trailing_ws(p) == p,
        p.len() > 0 ==> !is_ws_char(p[0]) && !is_ws_char(p.last()),
{
    lemma_drop_leading_ws_len(p);
    lemma_drop_trailing_ws_len(drop_leading_ws(p));
    if p.len() > 0 && is_ws_char(p[0]) {
        assert(drop_leading_ws(p).len() < p.len());
        assert(trim_spec(p).len() < p.len());
        assert(false);
    }
    assert(drop_leading_ws(p) == p);
    if p.len() > 0 && is_ws_char(p.last()) {
        lemma_drop_trailing_ws_len(p.drop_last());
        assert(trim_spec(p).len() < p.len());
        assert(false);
    }
}

proof fn lemma_trim_pad(lead: Seq<char>, p: Seq<char>, tail: Seq<char>)
    requires
        all_ws(lead),
        all_ws(tail),
        trim_spec(p) == p,
    ensures
        trim_spec(lead + p + tail) == p,
{
    lemma_trim_fixed(p);
    assert(lead + p + tail =~= lead + (p + tail));
    lemma_drop_leading_ws_concat(lead, p + tail);
    if p.len() == 0 {
        assert(p + tail =~= tail);
        lemma_drop_leading_ws_all(tail);
        assert(drop_trailing_ws(Seq::<char>::empty()) =~= p);
    } else {
        assert(!is_ws_char((p + tail)[0]));
        assert(drop_leading_ws(p + tail) == p + tail);
        lemma_drop_trailing_ws_concat(p, tail);
    }
}

proof fn lemma_find_from_first(s: Seq<char>, pat: Seq<char>, lo: int, j: int)
    requires
        pat.len() > 0,
        0 <= lo <= j,
        matches_at(s, pat, j),
        forall|k: int| lo <= k < j ==> !matches_at(s, pat, k),
    ensures
        find_from(s, pat, lo) == Some(j),
    decreases j - lo,
{
    if lo < j {
        lemma_find_from_first(s, pat, lo + 1, j);
    }
}

proof fn lemma_find_none_when_no_match(s: Seq<char>, pat: Seq<char>, lo: int)
    requires
        pat.len() > 0,
        0 <= lo <= s.len(),
        forall|k: int| 0 <= k ==> !matches_at(s, pat, k),
    ensures
        find_from(s, pat, lo) is None,
    decreases s.len() - lo,
{
    if lo + pat.len() <= s.len() {
        lemma_find_none_when_no_match(s, pat, lo + 1);
    }
}

/// A match of the pattern starts with the pattern's first character.
proof fn lemma_match_head(s: Seq<char>, pat: Seq<char>, k: int)
    requires
        pat.len() > 0,
        matches_at(s, pat, k),
    ensures
        s[k] == pat[0],
{
    assert(s.subrange(k, k + pat.len() as int)[0] == s[k]);
}

/// Extraction idempotence. A payload that parses on its own, wrapped in a
/// tagged fence or in a generic fence with only whitespace padding around it,
/// extracts to the same parsed value as the bare payload. The hypotheses pin
/// the wrapping down: the payload carries no backtick and no surrounding
/// whitespace of its own, the padding after the opening fence is nonempty
/// whitespace, and the fenced texts do not themselves parse whole (a text
/// that opens with a fence is not a structured value).
pub proof fn extraction_fence_agreement(
    p: Seq<char>,
    lead: Seq<char>,
    tail: Seq<char>,
    tagged: Seq<char>,
    generic: Seq<char>,
    v: JsonValue,
)
    requires
        json_of(p) == Some(v),
        trim_spec(p) == p,
        forall|i: int| 0 <= i < p.len() ==> p[i] != '`',
        all_ws(lead),
        all_ws(tail),
        lead.len() > 0,
        tagged == "```json"@ + lead + p + tail + "```"@,
        generic == "```"@ + lead + p + tail + "```"@,
        json_of(tagged) is None,
        json_of(generic) is None,
    ensures
        extract_spec(p) == Some(v),
        extract_spec(tagged) == Some(v),
        extract_spec(generic) == Some(v),
{
    reveal_strlit("```json");
    reveal_strlit("```");
    let tag = "```json"@;
    let fen = "```"@;
    let content = lead + p + tail;
    let cl = content.len() as int;

    // No character of the padded payload is a backtick.
    assert forall|i: int| 0 <= i < cl implies content[i] != '`' by {
        if i < lead.len() {
            assert(is_ws_char(lead[i]));
        } else if i < lead.len() + p.len() {
            assert(content[i] == p[i - lead.len()]);
        } else {
            assert(is_ws_char(tail[i - lead.len() - p.len()]));
        }
    }

    // The bare payload extracts directly.
    assert(extract_spec(p) == Some(v));

    // --- the tagged fence ---
    assert(tagged =~= tag + (content + fen));
    assert(tagged.len() == 7 + cl + 3);
    assert(tagged.subrange(0, 7) =~= tag);
    assert(matches_at(tagged, tag, 0));
    lemma_find_from_first(tagged, tag, 0, 0);
    assert(find_sub(tagged, tag) == Some(0int));
    let t_after = tagged.skip(7);
    assert(t_after =~= content + fen);
    assert(after_first(tagged, tag) == t_after);

    // The first generic fence inside the remainder is the closing fence.
    assert(t_after.subrange(cl, cl + 3) =~= fen);
    assert(matches_at(t_after, fen, cl));
    assert forall|k: int| 0 <= k < cl implies !matches_at(t_after, fen, k) by {
        if matches_at(t_after, fen, k) {
            lemma_match_head(t_after, fen, k);
            assert(t_after[k] == content[k]);
        }
    }
    lemma_find_from_first(t_after, fen, 0, cl);
    assert(up_to_fence(t_after) =~= content);
    lemma_trim_pad(lead, p, tail);
    assert(trim_spec(up_to_fence(after_first(tagged, tag))) == p);
    assert(extract_spec(tagged) == Some(v));

    // --- the generic fence ---
    assert(generic =~= fen + (content + fen));
    assert(generic.len() == 3 + cl + 3);

    // The generic wrapping contains no tagged fence: its backticks sit only
    // at the very start and the very end, and a whitespace character follows
    // the opening fence where the tag would need its `j`.
    assert forall|k: int| 0 <= k implies !matches_at(generic, tag, k) by {
        if matches_at(generic, tag, k) {
            assert(k + 7 <= generic.len());
            lemma_match_head(generic, tag, k);
            if k == 0 {
                assert(generic.subrange(0, 7)[3] == generic[3]);
                assert(generic[3] == content[0]);
                assert(content[0] == lead[0]);
                assert(is_ws_char(lead[0]));
                assert(generic.subrange(k, k + 7) =~= tag);
                assert(tag[3] == 'j');
            } else if k <= 2 {
                // the character after the opening backticks is whitespace
                assert(generic.subrange(k, k + 7)[3 - k] == generic[3]);
                assert(generic[3] == content[0]);
                assert(is_ws_char(content[0]));
                assert(tag[3 - k] == '`');
            } else if k < 3 + cl {
                assert(generic[k] == content[k - 3]);
            } else {
                assert(k >= 3 + cl && k + 7 <= 3 + cl + 3);
            }
        }
    }
    lemma_find_none_when_no_match(generic, tag, 0);
    assert(!crate::text::contains_sub(generic, tag));

    assert(generic.subrange(0, 3) =~= fen);
    assert(matches_at(generic, fen, 0));
    lemma_find_from_first(generic, fen, 0, 0);
    let g_after = generic.skip(3);
    assert(g_after =~= content + fen);
    assert(after_first(generic, fen) == g_after);
    assert(up_to_fence(g_after) =~= content);
    assert(trim_spec(up_to_fence(after_first(generic, fen))) == p);
    assert(extract_spec(generic) == Some(v));
}

proof fn lemma_upsert_keeps_key(
    fields: Seq<(String, JsonValue)>,
    key: String,
    value: JsonValue,
    k: Seq<char>,
)
    ensures
        spec_lookup(spec_upsert(fields, key, value), k) is Some <==> (spec_lookup(fields, k)
            is Some || k == key@),
    decreases fields.len(),
{
    if fields.len() == 0 {
        let result = seq![(key, value)];
        assert(result[0] == (key, value));
        assert(result.drop_first() =~= Seq::<(String, JsonValue)>::empty());
        assert(spec_lookup(result.drop_first(), k) is None);
        assert(spec_upsert(fields, key, value) == result);
    } else if fields[0].0@ == key@ {
        let result = seq![(key, value)] + fields.drop_first();
        assert(result[0] == (key, value));
        assert(result.drop_first() =~= fields.drop_first());
    } else {
        let rest = spec_upsert(fields.drop_first(), key, value);
        let result = seq![fields[0]] + rest;
        assert(result[0] == fields[0]);
        assert(result.drop_first() =~= rest);
        lemma_upsert_keeps_key(fields.drop_first(), key, value, k);
    }
}

/// Hypothesis state is append-or-overwrite only: a merge never removes a key.
/// Every key present in the state before a LOG_STATE merge is still present
/// after it.
pub proof fn merge_never_removes_keys(
    state: Seq<(String, JsonValue)>,
    payload: Seq<(String, JsonValue)>,
    k: Seq<char>,
)
    ensures
        spec_lookup(state, k) is Some ==> spec_lookup(spec_merge(state, payload), k) is Some,
    decreases payload.len(),
{
    if payload.len() > 0 {
        lemma_upsert_keeps_key(state, payload[0].0, payload[0].1, k);
        merge_never_removes_keys(
            spec_upsert(state, payload[0].0, payload[0].1),
            payload.drop_first(),
            k,
        );
    }
}

/// A status's wire name parses back to the same status.
pub proof fn status_name_round_trip(status: DiagnosisStatus)
    ensures
        status_of_name(status_name(status)) == Some(status),
{
    reveal_strlit("PENDING_USER_INPUT");
    reveal_strlit("COMPLETED");
    reveal_strlit("CANCELLED");
    assert("COMPLETED"@ != "PENDING_USER_INPUT"@) by {
        assert("COMPLETED"@.len() != "PENDING_USER_INPUT"@.len());
    }
    assert("CANCELLED"@ != "PENDING_USER_INPUT"@) by {
        assert("CANCELLED"@.len() != "PENDING_USER_INPUT"@.len());
    }
    assert("CANCELLED"@ != "COMPLETED"@) by {
        assert("CANCELLED"@[1] != "COMPLETED"@[1]);
    }
}

/// For every action kind, a payload of the required shape passes validation,
/// and a payload missing a required field fails it.
pub proof fn validation_characterizes_payloads(payload: JsonValue)
    ensures
        payload_valid(DiagnosisAction::GetPlantVitals, &payload),
        (payload matches JsonValue::Object(fields) && fields@.len() > 0) ==> payload_valid(
            DiagnosisAction::LogState,
            &payload,
        ),
        (payload.spec_string_field("question"@) matches Some(q) && q.len() > 0) ==> payload_valid(
            DiagnosisAction::AskUser,
            &payload,
        ),
        ((payload.spec_string_field("finding"@) matches Some(f) && f.len() > 0) && (
        payload.spec_string_field("recommendation"@) matches Some(rec) && rec.len() > 0))
            ==> payload_valid(DiagnosisAction::Conclude, &payload),
        !(payload matches JsonValue::Object(fields) && fields@.len() > 0) ==> !payload_valid(
            DiagnosisAction::LogState,
            &payload,
        ),
        payload.spec_field("question"@) is None ==> !payload_valid(
            DiagnosisAction::AskUser,
            &payload,
        ),
        payload.spec_field("finding"@) is None ==> !payload_valid(
            DiagnosisAction::Conclude,
            &payload,
        ),
        payload.spec_field("recommendation"@) is None ==> !payload_valid(
            DiagnosisAction::Conclude,
            &payload,
        ),
{
}

} // verus!
