//! The prompt sent to the model and the clean-up of its reply.
use vstd::prelude::*;
use vstd::string::*;
use vstd::utf8::*;

use crate::protocol::WireMessage;
use crate::text::{
    after_first_newline, before_last_fence, chars_of, fence_at, fence_at_in, find_newline,
    has_fence, has_fence_in, is_blank, is_first_newline, is_ws, is_last_fence, is_trimmed, lemma_after_first_newline_slice,
    lemma_before_last_fence_slice, lemma_first_newline_unique, lemma_last_fence_unique,
    lemma_encode_utf8_concat, lemma_trim_shape, lemma_trimmed_fixed, rfind_fence, slice_chars, trim, trim_end, trim_range,
    trim_start,
};

verus! {

broadcast use vstd::string::group_string_axioms;

/// Largest number of diff bytes put into the prompt.
pub const MAX_DIFF_CHARS: usize = 12000;

/// `i` is the largest UTF-8 character boundary of `bytes` that is at most `max`.
pub open spec fn is_floor_boundary(bytes: Seq<u8>, max: int, i: int) -> bool {
    &&& 0 <= i <= max
    &&& is_char_boundary(bytes, i)
    &&& forall|j: int| i < j <= max ==> !is_char_boundary(bytes, j)
}

/// The marker appended to a diff that was cut.
pub open spec fn truncation_marker() -> Seq<char> {
    "\n[diff truncated]"@
}

/// The diff as it goes into the prompt: whole when its UTF-8 encoding has at
/// most `MAX_DIFF_CHARS` bytes; otherwise cut at the last character boundary
/// at or below that many bytes, and marked as cut.
pub open spec fn capped_diff(diff: Seq<char>) -> Seq<char> {
    let bytes = encode_utf8(diff);
    if bytes.len() > MAX_DIFF_CHARS {
        decode_utf8(
            bytes.subrange(0, choose|i: int| is_floor_boundary(bytes, MAX_DIFF_CHARS as int, i)),
        ) + truncation_marker()
    } else {
        diff
    }
}

/// The system prompt for the given commit style and language.
pub open spec fn system_prompt(style: Seq<char>, language: Seq<char>) -> Seq<char> {
    "You write git commit messages.\nStyle: "@ + style
        + " (when 'conventional', use Conventional Commits: `type(scope): subject`, types feat|fix|refactor|docs|test|chore|perf|ci).\nLanguage: "@
        + language
        + ".\nOutput ONLY the commit message. Subject <= 50 chars, imperative mood. No backticks, no explanation, no surrounding quotes."@
}

/// The user prompt around the (capped) diff.
pub open spec fn user_prompt(diff: Seq<char>) -> Seq<char> {
    "Generate a commit message for this staged diff:\n\n"@ + capped_diff(diff)
}

/// `raw` with a surrounding code fence taken off: when it opens with three
/// backticks, the opening line and everything from the last fence on go.
pub open spec fn unfence(s: Seq<char>) -> Seq<char> {
    if fence_at(s, 0) {
        before_last_fence(after_first_newline(s))
    } else {
        s
    }
}

/// The commit message extracted from a raw model reply: trimmed and unfenced;
/// empty when nothing usable is left (nothing at all, or a stray fence).
pub open spec fn postprocess_text(raw: Seq<char>) -> Seq<char> {
    let r = trim(unfence(trim(raw)));
    if has_fence(r) || r.len() == 0 {
        Seq::empty()
    } else {
        r
    }
}

proof fn lemma_floor_boundary_unique(bytes: Seq<u8>, max: int, i: int)
    requires
        is_floor_boundary(bytes, max, i),
    ensures
        (choose|k: int| is_floor_boundary(bytes, max, k)) == i,
{
    let k = choose|k: int| is_floor_boundary(bytes, max, k);
    assert(is_floor_boundary(bytes, max, k));
    if k < i {
        assert(!is_char_boundary(bytes, i));
    }
    if i < k {
        assert(!is_char_boundary(bytes, k));
    }
}

/// The largest character boundary of `s` at or below the byte index `max`;
/// the length of `s` when `max` is past its end.
pub fn floor_char_boundary(s: &str, max: usize) -> (r: usize)
    ensures
        max >= s.spec_bytes().len() ==> r == s.spec_bytes().len(),
        max < s.spec_bytes().len() ==> is_floor_boundary(s.spec_bytes(), max as int, r as int),
{
    broadcast use encode_utf8_valid_utf8, vstd::slice::group_slice_axioms;

    let n = s.as_bytes().len();
    if max >= n {
        return n;
    }
    let ghost bytes = s.spec_bytes();
    let mut i: usize = max;
    while i > 0 && !s.is_char_boundary(i)
        invariant
            i <= max,
            bytes == s.spec_bytes(),
            forall|j: int| i < j <= max ==> !is_char_boundary(bytes, j),
        decreases i,
    {
        i = i - 1;
    }
    proof {
        if i == 0 {
            is_char_boundary_start_end_of_seq(bytes);
        }
    }
    i
}

/// The diff as it is put into the prompt (see `capped_diff`).
pub fn cap_diff(diff: &str) -> (r: String)
    ensures
        r@ == capped_diff(diff@),
{
    broadcast use encode_utf8_valid_utf8, vstd::slice::group_slice_axioms;

    if diff.as_bytes().len() > MAX_DIFF_CHARS {
        let cut = floor_char_boundary(diff, MAX_DIFF_CHARS);
        let ghost bytes = diff.spec_bytes();
        let (head, _) = diff.split_at(cut);
        proof {
            lemma_floor_boundary_unique(bytes, MAX_DIFF_CHARS as int, cut as int);
            encode_utf8_decode_utf8(head@);
            assert(head.spec_bytes() == bytes.subrange(0, cut as int));
            assert(head@ == decode_utf8(bytes.subrange(0, cut as int)));
        }
        let mut s = head.to_owned();
        s.append("\n[diff truncated]");
        s
    } else {
        diff.to_owned()
    }
}

/// Build the system+user messages for commit-message generation.
pub fn build_messages(style: &str, language: &str, diff: &str) -> (msgs: Vec<WireMessage>)
    ensures
        msgs@.len() == 2,
        msgs@[0].role@ == "system"@,
        msgs@[0].content@ == system_prompt(style@, language@),
        msgs@[1].role@ == "user"@,
        msgs@[1].content@ == user_prompt(diff@),
{
    let mut system = "You write git commit messages.\nStyle: ".to_owned();
    system.append(style);
    system.append(
        " (when 'conventional', use Conventional Commits: `type(scope): subject`, types feat|fix|refactor|docs|test|chore|perf|ci).\nLanguage: ",
    );
    system.append(language);
    system.append(
        ".\nOutput ONLY the commit message. Subject <= 50 chars, imperative mood. No backticks, no explanation, no surrounding quotes.",
    );
    let capped = cap_diff(diff);
    let mut user = "Generate a commit message for this staged diff:\n\n".to_owned();
    user.append(capped.as_str());
    let mut msgs: Vec<WireMessage> = Vec::new();
    msgs.push(WireMessage { role: "system".to_owned(), content: system });
    msgs.push(WireMessage { role: "user".to_owned(), content: user });
    msgs
}

/// Clean a raw model response: strip surrounding ``` fences and trim.
pub fn postprocess(raw: &str) -> (r: String)
    ensures
        r@ == postprocess_text(raw@),
{
    let v = chars_of(raw);
    let n = v.len();
    let ghost s = v@;
    assert(s.subrange(0, n as int) =~= s);
    let (a0, b0) = trim_range(&v, 0, n);
    let ghost t = s.subrange(a0 as int, b0 as int);
    let mut a: usize = a0;
    let mut b: usize = b0;
    if fence_at_in(&v, a0, b0, 0) {
        match find_newline(&v, a0, b0) {
            Some(k) => {
                proof {
                    lemma_first_newline_unique(t, k - a0);
                    assert(t.subrange(k - a0 + 1, t.len() as int) =~= s.subrange(
                        k + 1,
                        b0 as int,
                    ));
                }
                a = k + 1;
            },
            None => {
                assert(s.subrange(a0 as int, b0 as int) =~= t);
            },
        }
        let ghost u = s.subrange(a as int, b0 as int);
        assert(u == after_first_newline(t));
        match rfind_fence(&v, a, b0) {
            Some(k) => {
                proof {
                    lemma_last_fence_unique(u, k - a);
                    assert(u.subrange(0, k - a) =~= s.subrange(a as int, k as int));
                }
                b = k;
            },
            None => {},
        }
        assert(s.subrange(a as int, b as int) == unfence(t));
    } else {
        assert(s.subrange(a as int, b as int) == unfence(t));
    }
    let (c, d) = trim_range(&v, a, b);
    if has_fence_in(&v, c, d) || c == d {
        return String::new();
    }
    slice_chars(raw, c, d)
}

/// A cleaned reply is a cleaned reply already: cleaning it again changes
/// nothing.
pub proof fn law_postprocess_idempotent(raw: Seq<char>)
    ensures
        postprocess_text(postprocess_text(raw)) == postprocess_text(raw),
{
    let r = postprocess_text(raw);
    lemma_trim_shape(unfence(trim(raw)));
    if r.len() == 0 {
        assert(r =~= Seq::<char>::empty());
        assert(trim_start(r) =~= r);
        assert(trim_end(r) =~= r);
    } else {
        lemma_trimmed_fixed(r);
        assert(!fence_at(r, 0));
    }
}

/// A cleaned reply holds no code fence and starts and ends with a
/// non-whitespace character (or is empty).
pub proof fn law_postprocess_clean(raw: Seq<char>)
    ensures
        !has_fence(postprocess_text(raw)),
        is_trimmed(postprocess_text(raw)),
{
    lemma_trim_shape(unfence(trim(raw)));
    let r = postprocess_text(raw);
    if r.len() == 0 {
        assert(!has_fence(r)) by {
            if has_fence(r) {
                let k = choose|k: int| fence_at(r, k);
            }
        }
    }
}

proof fn lemma_unfence_slice(t: Seq<char>) -> (r: (int, int))
    ensures
        0 <= r.0 <= r.1 <= t.len(),
        unfence(t) == t.subrange(r.0, r.1),
{
    if fence_at(t, 0) {
        let k = lemma_after_first_newline_slice(t);
        let w = after_first_newline(t);
        let m = lemma_before_last_fence_slice(w);
        assert(w.subrange(0, m) =~= t.subrange(k, k + m));
        (k, k + m)
    } else {
        assert(t.subrange(0, t.len() as int) =~= t);
        (0, t.len() as int)
    }
}

/// Cleaning never invents text: the result is a contiguous piece of the raw
/// reply.
pub proof fn law_postprocess_is_slice(raw: Seq<char>)
    ensures
        exists|i: int, j: int|
            0 <= i <= j <= raw.len() && postprocess_text(raw) == raw.subrange(i, j),
{
    let (a0, b0) = lemma_trim_shape(raw);
    let t = trim(raw);
    let (a1, b1) = lemma_unfence_slice(t);
    let u = unfence(t);
    let (a2, b2) = lemma_trim_shape(u);
    let r = postprocess_text(raw);
    let (i, j): (int, int) = if r.len() == 0 {
        (0, 0)
    } else {
        (a0 + a1 + a2, a0 + a1 + b2)
    };
    assert(r =~= raw.subrange(i, j));
}

/// A reply that is empty or only whitespace is rejected (cleans to nothing).
pub proof fn law_blank_reply_rejected(raw: Seq<char>)
    requires
        is_blank(raw),
    ensures
        postprocess_text(raw).len() == 0,
{
    assert(trim(raw) =~= Seq::<char>::empty());
    assert(!fence_at(trim(raw), 0));
    assert(trim_start(Seq::<char>::empty()) =~= Seq::<char>::empty());
    assert(trim_end(Seq::<char>::empty()) =~= Seq::<char>::empty());
}

proof fn lemma_floor_boundary_exists(bytes: Seq<u8>, max: int, i: int)
    requires
        valid_utf8(bytes),
        0 <= i <= max,
        forall|j: int| i < j <= max ==> !is_char_boundary(bytes, j),
    ensures
        exists|k: int| is_floor_boundary(bytes, max, k),
    decreases i,
{
    if is_char_boundary(bytes, i) {
        assert(is_floor_boundary(bytes, max, i));
    } else {
        lemma_floor_boundary_exists(bytes, max, i - 1);
    }
}

/// The end of the encoding of a prefix is a character boundary of the
/// encoding of the whole text.
proof fn lemma_boundary_after_prefix(a: Seq<char>, b: Seq<char>)
    ensures
        is_char_boundary(encode_utf8(a + b), encode_utf8(a).len() as int),
    decreases a.len(),
{
    broadcast use encode_utf8_valid_utf8;

    let bytes = encode_utf8(a + b);
    if a.len() > 0 {
        let ab = a + b;
        encode_utf8_first_scalar(ab);
        assert(ab[0] == a[0]);
        assert(ab.drop_first() =~= a.drop_first() + b);
        lemma_boundary_after_prefix(a.drop_first(), b);
        let w = encode_scalar(a[0] as u32).len() as int;
        assert(pop_first_scalar(bytes) =~= encode_utf8(a.drop_first() + b));
        lemma_encode_utf8_concat(a, b);
        assert(encode_utf8(a).len() == w + encode_utf8(a.drop_first()).len());
    }
}

/// A diff that fits is kept whole; one that does not is cut to the longest
/// prefix of whole characters whose UTF-8 encoding fits in `MAX_DIFF_CHARS`
/// bytes, and marked as cut.
pub proof fn law_capped_diff_longest_fitting_prefix(diff: Seq<char>)
    ensures
        encode_utf8(diff).len() <= MAX_DIFF_CHARS ==> capped_diff(diff) == diff,
        encode_utf8(diff).len() > MAX_DIFF_CHARS ==> exists|m: int|
            {
                &&& 0 <= m < diff.len()
                &&& capped_diff(diff) == diff.take(m) + truncation_marker()
                &&& encode_utf8(diff.take(m)).len() <= MAX_DIFF_CHARS
                &&& encode_utf8(diff.take(m + 1)).len() > MAX_DIFF_CHARS
            },
{
    broadcast use encode_utf8_valid_utf8;

    let bytes = encode_utf8(diff);
    let max = MAX_DIFF_CHARS as int;
    if bytes.len() > max {
        lemma_floor_boundary_exists(bytes, max, max);
        let cut = choose|i: int| is_floor_boundary(bytes, max, i);
        let head = bytes.subrange(0, cut);
        let tail = bytes.subrange(cut, bytes.len() as int);
        let p = decode_utf8(head);
        let q = decode_utf8(tail);
        decode_utf8_split(bytes, cut);
        encode_utf8_decode_utf8(diff);
        assert(diff =~= p + q);
        valid_utf8_split(bytes, cut);
        decode_utf8_encode_utf8(head);
        decode_utf8_encode_utf8(tail);
        let m = p.len() as int;
        assert(diff.take(m) =~= p);
        assert(q.len() > 0) by {
            if q.len() == 0 {
                assert(encode_utf8(q) =~= Seq::<u8>::empty());
            }
        }
        let c = diff[m];
        let front = p + seq![c];
        assert(diff.take(m + 1) =~= front);
        assert(front + q.drop_first() =~= diff);
        lemma_boundary_after_prefix(front, q.drop_first());
        lemma_encode_utf8_concat(p, seq![c]);
        assert(seq![c].drop_first() =~= Seq::<char>::empty());
        assert(encode_utf8(seq![c]).len() >= 1);
        assert(capped_diff(diff) == diff.take(m) + truncation_marker());
    }
}

/// The diff part of the prompt never has more than `MAX_DIFF_CHARS` bytes
/// plus the length of the truncation marker.
pub proof fn law_capped_diff_size(diff: Seq<char>)
    ensures
        encode_utf8(capped_diff(diff)).len() <= MAX_DIFF_CHARS + 17,
{
    law_capped_diff_longest_fitting_prefix(diff);
    if encode_utf8(diff).len() > MAX_DIFF_CHARS {
        let m = choose|m: int|
            {
                &&& 0 <= m < diff.len()
                &&& capped_diff(diff) == diff.take(m) + truncation_marker()
                &&& encode_utf8(diff.take(m)).len() <= MAX_DIFF_CHARS
                &&& encode_utf8(diff.take(m + 1)).len() > MAX_DIFF_CHARS
            };
        lemma_encode_utf8_concat(diff.take(m), truncation_marker());
        reveal_strlit("\n[diff truncated]");
        assert(is_ascii_chars(truncation_marker()));
        is_ascii_chars_encode_utf8(truncation_marker());
    }
}

/// For a reply that opens with a fence (with or without a language tag on
/// the opening line) and closes with one, the message is the trim of all the
/// text in between, however many lines it spans; when that text itself holds
/// a fence, the reply is unusable.
pub proof fn law_fenced_reply_keeps_whole_body(tag: Seq<char>, body: Seq<char>)
    requires
        !tag.contains('\n'),
    ensures
        !has_fence(body) ==> postprocess_text("```"@ + tag + "\n"@ + body + "```"@) == trim(body),
        has_fence(body) ==> postprocess_text("```"@ + tag + "\n"@ + body + "```"@).len() == 0,
{
    reveal_strlit("```");
    reveal_strlit("\n");
    let fence = "```"@;
    let raw = fence + tag + "\n"@ + body + fence;
    let k: int = 3 + tag.len() as int;
    assert(raw[0] == '`');
    assert(raw[raw.len() - 1] == '`');
    lemma_trimmed_fixed(raw);
    assert(fence_at(raw, 0));
    assert(raw[k] == '\n');
    assert forall|j: int| 0 <= j < k implies raw[j] != '\n' by {
        if j >= 3 {
            assert(raw[j] == tag[j - 3]);
        }
    }
    assert(is_first_newline(raw, k));
    lemma_first_newline_unique(raw, k);
    let u = body + fence;
    assert(raw.subrange(k + 1, raw.len() as int) =~= u);
    assert(is_last_fence(u, body.len() as int));
    lemma_last_fence_unique(u, body.len() as int);
    assert(u.subrange(0, body.len() as int) =~= body);
    assert(unfence(raw) == body);
    let (i, j) = lemma_trim_shape(body);
    let r = trim(body);
    assert(has_fence(r) == has_fence(body)) by {
        if has_fence(r) {
            let x = choose|x: int| fence_at(r, x);
            assert(fence_at(body, i + x));
        }
        if has_fence(body) {
            let x = choose|x: int| fence_at(body, x);
            assert(!is_ws(body[x]) && !is_ws(body[x + 2]));
            assert(i <= x && x + 3 <= j);
            assert(fence_at(r, x - i));
        }
    }
    if r.len() == 0 {
        assert(r =~= Seq::<char>::empty());
    }
}

} // verus!
