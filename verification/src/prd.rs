//! The checklist document model: lines of the form `- [ ] <text>` (unchecked)
//! and `- [x] <text>` / `- [X] <text>` (checked), with leading indentation;
//! every other line is passthrough content. Marking an item done rewrites the
//! first unchecked line whose normalized text equals or contains the
//! normalized target, and leaves everything else alone.
use crate::text::{
    contains_seq, contains_str, first_non_space, join_lines, join_with_newlines,
    lemma_trim_front_at, lines_of, lower_of, lowercase, spec_lines, starts_with, str_eq,
    strip_marker, trim_front, trim_str, trimmed,
};
use vstd::prelude::*;
use vstd::string::StrSliceExecFns;
use vstd::string::StringExecFns;

verus! {

/// One checklist entry: its text (trimmed, without the marker) and whether it
/// is checked off.
pub struct PrdItem {
    pub text: String,
    pub checked: bool,
}

/// Spec-level image of a checklist entry.
pub ghost struct ItemV {
    pub text: Seq<char>,
    pub checked: bool,
}

impl View for PrdItem {
    type V = ItemV;

    open spec fn view(&self) -> ItemV {
        ItemV { text: self.text@, checked: self.checked }
    }
}

impl DeepView for PrdItem {
    type V = ItemV;

    open spec fn deep_view(&self) -> ItemV {
        self.view()
    }
}

/// The ordered checklist items found in a document.
pub struct PrdDocument {
    pub items: Vec<PrdItem>,
}

impl View for PrdDocument {
    type V = Seq<ItemV>;

    open spec fn view(&self) -> Seq<ItemV> {
        self.items.deep_view()
    }
}

/// The marker that opens an unchecked item line, after any indentation.
pub open spec fn unchecked_marker() -> Seq<char> {
    "- [ ] "@
}

/// The marker of a checked item line, as `mark_item_done` writes it.
pub open spec fn checked_marker() -> Seq<char> {
    "- [x] "@
}

/// The checked marker in its capital form, also accepted when parsing.
pub open spec fn checked_marker_upper() -> Seq<char> {
    "- [X] "@
}

/// What one line contributes to the item model: an item when, after leading
/// whitespace, it starts with one of the three markers; nothing otherwise.
pub open spec fn line_item(line: Seq<char>) -> Option<ItemV> {
    let t = trim_front(line);
    if starts_with(t, unchecked_marker()) {
        Some(ItemV { text: trimmed(t.skip(unchecked_marker().len() as int)), checked: false })
    } else if starts_with(t, checked_marker()) {
        Some(ItemV { text: trimmed(t.skip(checked_marker().len() as int)), checked: true })
    } else if starts_with(t, checked_marker_upper()) {
        Some(ItemV { text: trimmed(t.skip(checked_marker_upper().len() as int)), checked: true })
    } else {
        None
    }
}

/// The items contributed by a sequence of lines, in order.
pub open spec fn items_of_lines(ls: Seq<Seq<char>>) -> Seq<ItemV>
    decreases ls.len(),
{
    if ls.len() == 0 {
        Seq::empty()
    } else {
        items_of_lines(ls.drop_last()) + match line_item(ls.last()) {
            Some(it) => seq![it],
            None => Seq::<ItemV>::empty(),
        }
    }
}

/// The item model of a whole document text.
pub open spec fn spec_parse(s: Seq<char>) -> Seq<ItemV> {
    items_of_lines(spec_lines(s))
}

/// The unchecked items among `items`, in order.
pub open spec fn unchecked_of(items: Seq<ItemV>) -> Seq<ItemV>
    decreases items.len(),
{
    if items.len() == 0 {
        Seq::empty()
    } else {
        unchecked_of(items.drop_last()) + if !items.last().checked {
            seq![items.last()]
        } else {
            Seq::<ItemV>::empty()
        }
    }
}

/// The checked items among `items`, in order.
pub open spec fn checked_of(items: Seq<ItemV>) -> Seq<ItemV>
    decreases items.len(),
{
    if items.len() == 0 {
        Seq::empty()
    } else {
        checked_of(items.drop_last()) + if items.last().checked {
            seq![items.last()]
        } else {
            Seq::<ItemV>::empty()
        }
    }
}

/// The texts of `items`, in order.
pub open spec fn texts_of(items: Seq<ItemV>) -> Seq<Seq<char>> {
    Seq::new(items.len(), |i: int| items[i].text)
}

/// Whether any item of `items` is still unchecked.
pub open spec fn has_unchecked(items: Seq<ItemV>) -> bool {
    exists|i: int| 0 <= i < items.len() && !(#[trigger] items[i]).checked
}

/// There is an unchecked item exactly when `unchecked_of` is non-empty.
pub proof fn lemma_unchecked_of_len(items: Seq<ItemV>)
    ensures
        unchecked_of(items).len() > 0 <==> has_unchecked(items),
    decreases items.len(),
{
    if items.len() > 0 {
        lemma_unchecked_of_len(items.drop_last());
        if unchecked_of(items).len() > 0 {
            if !items.last().checked {
                assert(!items[items.len() - 1].checked);
            } else {
                let i = choose|i: int|
                    0 <= i < items.drop_last().len() && !(#[trigger] items.drop_last()[i]).checked;
                assert(!items[i].checked);
            }
        }
        if has_unchecked(items) {
            let i = choose|i: int| 0 <= i < items.len() && !(#[trigger] items[i]).checked;
            if i < items.len() - 1 {
                assert(!items.drop_last()[i].checked);
            }
        }
    }
}

/// The first entry of `unchecked_of` is the earliest unchecked item of the
/// document: order is preserved and significant for "first unchecked item"
/// selection.
pub proof fn lemma_first_unchecked(items: Seq<ItemV>)
    requires
        has_unchecked(items),
    ensures
        unchecked_of(items).len() > 0,
        exists|k: int|
            #![trigger items[k]]
            0 <= k < items.len() && !items[k].checked && (forall|j: int|
                0 <= j < k ==> items[j].checked) && unchecked_of(items)[0] == items[k],
    decreases items.len(),
{
    lemma_unchecked_of_len(items);
    let head = items.drop_last();
    if has_unchecked(head) {
        lemma_first_unchecked(head);
        let k = choose|k: int|
            #![trigger head[k]]
            0 <= k < head.len() && !head[k].checked && (forall|j: int|
                0 <= j < k ==> head[j].checked) && unchecked_of(head)[0] == head[k];
        assert(items[k] == head[k]);
        assert(forall|j: int| 0 <= j < k ==> items[j] == head[j]);
        assert(unchecked_of(items)[0] == unchecked_of(head)[0]);
    } else {
        lemma_unchecked_of_len(head);
        assert(unchecked_of(head).len() == 0);
        assert(!items.last().checked) by {
            let i = choose|i: int| 0 <= i < items.len() && !(#[trigger] items[i]).checked;
            if i < items.len() - 1 {
                assert(!head[i].checked);
            }
        }
        let k = items.len() - 1;
        assert(forall|j: int| 0 <= j < k ==> items[j].checked) by {
            assert(forall|j: int| 0 <= j < k ==> items[j] == head[j]);
            assert forall|j: int| 0 <= j < k implies items[j].checked by {
                if !head[j].checked {
                    assert(has_unchecked(head));
                }
            }
        }
        assert(unchecked_of(items)[0] == items.last());
    }
}

fn classify_line(line: &str) -> (r: Option<PrdItem>)
    ensures
        match r {
            Some(item) => line_item(line@) == Some(item@),
            None => line_item(line@) is None,
        },
{
    let i = first_non_space(line);
    let n = line.unicode_len();
    let t = line.substring_char(i, n);
    proof {
        lemma_trim_front_at(line@, i as int);
        assert(t@ =~= trim_front(line@));
    }
    if let Some(rest) = strip_marker(t, "- [ ] ") {
        let text = trim_str(rest);
        return Some(PrdItem { text: String::from_str(text), checked: false });
    }
    if let Some(rest) = strip_marker(t, "- [x] ") {
        let text = trim_str(rest);
        return Some(PrdItem { text: String::from_str(text), checked: true });
    }
    if let Some(rest) = strip_marker(t, "- [X] ") {
        let text = trim_str(rest);
        return Some(PrdItem { text: String::from_str(text), checked: true });
    }
    None
}

impl PrdDocument {
    /// Read the item model out of a document text. Lines that are no items
    /// are ignored here; they stay untouched by every mutation.
    pub fn parse(input: &str) -> (r: PrdDocument)
        ensures
            r@ == spec_parse(input@),
    {
        let lines = lines_of(input);
        let mut items: Vec<PrdItem> = Vec::new();
        let mut i: usize = 0;
        proof {
            assert(items.deep_view() =~= items_of_lines(lines.deep_view().take(0)));
        }
        while i < lines.len()
            invariant
                0 <= i <= lines.len(),
                lines.deep_view() == spec_lines(input@),
                items.deep_view() == items_of_lines(lines.deep_view().take(i as int)),
            decreases lines.len() - i,
        {
            let ghost dv = lines.deep_view();
            if let Some(item) = classify_line(lines[i].as_str()) {
                items.push(item);
            }
            proof {
                assert(dv.take(i + 1).drop_last() =~= dv.take(i as int));
                assert(dv.take(i + 1).last() == dv[i as int]);
                assert(items.deep_view() =~= items_of_lines(dv.take(i + 1)));
            }
            i += 1;
        }
        proof {
            assert(lines.deep_view().take(lines.len() as int) =~= lines.deep_view());
        }
        PrdDocument { items }
    }

    /// The still-unchecked items, in document order.
    pub fn unchecked_items(&self) -> (r: Vec<PrdItem>)
        ensures
            r.deep_view() == unchecked_of(self@),
    {
        let mut out: Vec<PrdItem> = Vec::new();
        let mut i: usize = 0;
        proof {
            assert(out.deep_view() =~= unchecked_of(self@.take(0)));
        }
        while i < self.items.len()
            invariant
                0 <= i <= self.items.len(),
                self@.len() == self.items.len(),
                out.deep_view() == unchecked_of(self@.take(i as int)),
            decreases self.items.len() - i,
        {
            if !self.items[i].checked {
                let copy = PrdItem { text: self.items[i].text.clone(), checked: false };
                proof {
                    assert(copy@ == self@[i as int]);
                }
                out.push(copy);
            }
            proof {
                assert(self@.take(i + 1).drop_last() =~= self@.take(i as int));
                assert(self@.take(i + 1).last() == self@[i as int]);
                assert(out.deep_view() =~= unchecked_of(self@.take(i + 1)));
            }
            i += 1;
        }
        proof {
            assert(self@.take(self.items.len() as int) =~= self@);
        }
        out
    }
}

/// A target or item text in the form used for matching: trimmed, then case
/// folded.
pub open spec fn spec_normalize(s: Seq<char>) -> Seq<char> {
    lower_of(trimmed(s))
}

/// Trim and case fold a text for matching.
pub fn normalize(s: &str) -> (r: String)
    ensures
        r@ == spec_normalize(s@),
{
    lowercase(trim_str(s))
}

/// The raw text of an unchecked item line (everything after the marker,
/// untrimmed), or nothing for any other line.
pub open spec fn unchecked_line_text(line: Seq<char>) -> Option<Seq<char>> {
    let t = trim_front(line);
    if starts_with(t, unchecked_marker()) {
        Some(t.skip(unchecked_marker().len() as int))
    } else {
        None
    }
}

/// Whether `line` is an unchecked item line whose normalized text equals or
/// contains the normalized target `tn`.
pub open spec fn line_matches(line: Seq<char>, tn: Seq<char>) -> bool {
    match unchecked_line_text(line) {
        Some(raw) => {
            let text_norm = spec_normalize(raw);
            text_norm == tn || contains_seq(text_norm, tn)
        },
        None => false,
    }
}

/// An unchecked item line rewritten to its checked form: the indentation is
/// kept, the marker becomes `- [x] `, and the item text is trimmed.
pub open spec fn rewrite_line(line: Seq<char>) -> Seq<char> {
    match unchecked_line_text(line) {
        Some(raw) => line.subrange(0, line.len() - trim_front(line).len()) + checked_marker()
            + trimmed(raw),
        None => line,
    }
}

/// Index of the first line matching `tn`, if any.
pub open spec fn find_match(ls: Seq<Seq<char>>, tn: Seq<char>) -> Option<int>
    decreases ls.len(),
{
    if ls.len() == 0 {
        None
    } else if line_matches(ls[0], tn) {
        Some(0)
    } else {
        match find_match(ls.drop_first(), tn) {
            Some(i) => Some(i + 1),
            None => None,
        }
    }
}

/// `find_match` points at the first matching line, when one exists.
pub proof fn lemma_find_match_props(ls: Seq<Seq<char>>, tn: Seq<char>)
    ensures
        match find_match(ls, tn) {
            Some(k) => 0 <= k < ls.len() && line_matches(ls[k], tn) && forall|j: int|
                0 <= j < k ==> !line_matches(#[trigger] ls[j], tn),
            None => forall|j: int| 0 <= j < ls.len() ==> !line_matches(#[trigger] ls[j], tn),
        },
    decreases ls.len(),
{
    if ls.len() > 0 && !line_matches(ls[0], tn) {
        let t = ls.drop_first();
        lemma_find_match_props(t, tn);
        assert(forall|j: int| 1 <= j < ls.len() ==> ls[j] == t[j - 1]);
    }
}

/// An index with no match before it that sits on a match (or past the end
/// with no match at all) is what `find_match` returns.
pub proof fn lemma_find_match_at(ls: Seq<Seq<char>>, tn: Seq<char>, k: int)
    requires
        0 <= k <= ls.len(),
        forall|j: int| 0 <= j < k ==> !line_matches(#[trigger] ls[j], tn),
        k == ls.len() || line_matches(ls[k], tn),
    ensures
        find_match(ls, tn) == if k == ls.len() {
            None::<int>
        } else {
            Some(k)
        },
    decreases k,
{
    if ls.len() > 0 && !line_matches(ls[0], tn) {
        let t = ls.drop_first();
        assert(forall|j: int| 0 <= j < k - 1 ==> !line_matches(#[trigger] t[j], tn));
        lemma_find_match_at(t, tn, k - 1);
    }
}

/// The lines with the first match for `tn` rewritten to its checked form.
pub open spec fn mark_lines(ls: Seq<Seq<char>>, tn: Seq<char>) -> Option<Seq<Seq<char>>> {
    match find_match(ls, tn) {
        Some(k) => Some(ls.update(k, rewrite_line(ls[k]))),
        None => None,
    }
}

/// The rewritten document text after marking `target` done in `s`: the lines
/// with the first matching one rewritten, joined again, a trailing newline
/// kept when `s` had one; or nothing when no line matches.
pub open spec fn spec_mark(s: Seq<char>, target: Seq<char>) -> Option<Seq<char>> {
    match mark_lines(spec_lines(s), spec_normalize(target)) {
        Some(ls) => Some(
            join_lines(ls) + if s.len() > 0 && s.last() == '\n' {
                seq!['\n']
            } else {
                Seq::<char>::empty()
            },
        ),
        None => None,
    }
}

fn line_match_exec(line: &str, target_norm: &str) -> (r: bool)
    ensures
        r == line_matches(line@, target_norm@),
{
    let i = first_non_space(line);
    let n = line.unicode_len();
    let t = line.substring_char(i, n);
    proof {
        lemma_trim_front_at(line@, i as int);
        assert(t@ =~= trim_front(line@));
    }
    match strip_marker(t, "- [ ] ") {
        Some(rest) => {
            let rn = normalize(rest);
            str_eq(rn.as_str(), target_norm) || contains_str(rn.as_str(), target_norm)
        },
        None => false,
    }
}

fn rewrite_line_exec(line: &str) -> (r: String)
    requires
        unchecked_line_text(line@) is Some,
    ensures
        r@ == rewrite_line(line@),
{
    let i = first_non_space(line);
    let n = line.unicode_len();
    let t = line.substring_char(i, n);
    proof {
        lemma_trim_front_at(line@, i as int);
        assert(t@ =~= trim_front(line@));
    }
    let rest = strip_marker(t, "- [ ] ").unwrap();
    let mut out = String::from_str(line.substring_char(0, i));
    out.append("- [x] ");
    out.append(trim_str(rest));
    proof {
        assert(line@.subrange(0, line@.len() - trim_front(line@).len()) =~= line@.subrange(
            0,
            i as int,
        ));
        assert(out@ =~= rewrite_line(line@));
    }
    out
}

/// Mark the first unchecked item matching `target_item` as done: the
/// rewritten document text, or nothing (and no rewrite) when no unchecked
/// item line's normalized text equals or contains the normalized target.
pub fn mark_item_done(contents: &str, target_item: &str) -> (r: Option<String>)
    ensures
        match r {
            Some(out) => spec_mark(contents@, target_item@) == Some(out@),
            None => spec_mark(contents@, target_item@) is None,
        },
{
    let target_norm = normalize(target_item);
    let lines = lines_of(contents);
    let ghost dv = lines.deep_view();
    let ghost tn = spec_normalize(target_item@);
    let mut out: Vec<String> = Vec::new();
    let mut found = false;
    let ghost mut match_idx: int = 0;
    let mut i: usize = 0;
    proof {
        assert(out.deep_view() =~= dv.take(0));
    }
    while i < lines.len()
        invariant
            0 <= i <= lines.len(),
            lines.deep_view() == dv,
            dv == spec_lines(contents@),
            target_norm@ == tn,
            out.len() == i,
            !found ==> out.deep_view() == dv.take(i as int) && forall|j: int|
                0 <= j < i ==> !line_matches(#[trigger] dv[j], tn),
            found ==> 0 <= match_idx < i && line_matches(dv[match_idx], tn) && (forall|j: int|
                0 <= j < match_idx ==> !line_matches(#[trigger] dv[j], tn)) && out.deep_view()
                == dv.take(i as int).update(match_idx, rewrite_line(dv[match_idx])),
        decreases lines.len() - i,
    {
        let line = &lines[i];
        let ghost out_pre = out@;
        let ghost out_pre_deep = out.deep_view();
        proof {
            assert(line@ == dv[i as int]);
        }
        if !found && line_match_exec(line.as_str(), target_norm.as_str()) {
            let rewritten = rewrite_line_exec(line.as_str());
            out.push(rewritten);
            found = true;
            proof {
                match_idx = i as int;
                assert forall|j: int| 0 <= j < i implies out.deep_view()[j] == out_pre_deep[j] by {
                    assert(out.deep_view()[j] == out@[j]@);
                    assert(out@[j] == out_pre[j]);
                    assert(out_pre_deep[j] == out_pre[j]@);
                }
                assert(out.deep_view()[i as int] == rewritten@);
                assert(rewritten@ == rewrite_line(dv[i as int]));
                assert(out_pre_deep == dv.take(i as int));
                let ghost target_seq = dv.take(i + 1).update(match_idx, rewrite_line(dv[match_idx]));
                assert forall|j: int| 0 <= j < i + 1 implies out.deep_view()[j] == target_seq[j] by {
                    if j < i {
                        assert(out.deep_view()[j] == out_pre_deep[j]);
                        assert(dv.take(i as int)[j] == dv[j]);
                        assert(dv.take(i + 1)[j] == dv[j]);
                        assert(target_seq[j] == dv[j]);
                    } else {
                        assert(target_seq[j] == rewrite_line(dv[match_idx]));
                    }
                }
                assert(out.deep_view().len() == i + 1);
                assert(out.deep_view() =~= target_seq);
            }
        } else {
            let copied = line.clone();
            out.push(copied);
            proof {
                assert forall|j: int| 0 <= j < i implies out.deep_view()[j] == out_pre_deep[j] by {
                    assert(out.deep_view()[j] == out@[j]@);
                    assert(out@[j] == out_pre[j]);
                    assert(out_pre_deep[j] == out_pre[j]@);
                }
                assert(out.deep_view()[i as int] == dv[i as int]);
                assert(out.deep_view().len() == i + 1);
                if found {
                    let ghost target_seq = dv.take(i + 1).update(
                        match_idx,
                        rewrite_line(dv[match_idx]),
                    );
                    assert(out_pre_deep == dv.take(i as int).update(
                        match_idx,
                        rewrite_line(dv[match_idx]),
                    ));
                    assert forall|j: int| 0 <= j < i + 1 implies out.deep_view()[j]
                        == target_seq[j] by {
                        if j < i {
                            assert(out.deep_view()[j] == out_pre_deep[j]);
                            if j == match_idx {
                                assert(target_seq[j] == rewrite_line(dv[match_idx]));
                                assert(out_pre_deep[j] == rewrite_line(dv[match_idx]));
                            } else {
                                assert(dv.take(i as int)[j] == dv[j]);
                                assert(dv.take(i + 1)[j] == dv[j]);
                                assert(target_seq[j] == dv[j]);
                                assert(out_pre_deep[j] == dv[j]);
                            }
                        } else {
                            assert(target_seq[j] == dv.take(i + 1)[j]);
                            assert(dv.take(i + 1)[j] == dv[j]);
                        }
                    }
                    assert(out.deep_view() =~= target_seq);
                } else {
                    assert(out_pre_deep == dv.take(i as int));
                    assert forall|j: int| 0 <= j < i + 1 implies out.deep_view()[j] == dv.take(
                        i + 1,
                    )[j] by {
                        if j < i {
                            assert(out.deep_view()[j] == out_pre_deep[j]);
                            assert(dv.take(i as int)[j] == dv[j]);
                        }
                        assert(dv.take(i + 1)[j] == dv[j]);
                    }
                    assert(out.deep_view() =~= dv.take(i + 1));
                }
            }
        }
        i += 1;
    }
    proof {
        assert(dv.take(lines.len() as int) =~= dv);
    }
    if found {
        let n = contents.unicode_len();
        let trailing = n > 0 && contents.get_char(n - 1) == '\n';
        proof {
            lemma_find_match_at(dv, tn, match_idx);
            assert(mark_lines(dv, tn) == Some(dv.update(match_idx, rewrite_line(dv[match_idx]))));
        }
        Some(join_with_newlines(&out, trailing))
    } else {
        proof {
            lemma_find_match_at(dv, tn, dv.len() as int);
        }
        None
    }
}

/// Law: when marking succeeds, exactly one line changes — the first unchecked
/// item line whose normalized text equals or contains the target — and every
/// other line, item or not, is carried over unchanged.
pub proof fn lemma_mark_first_match_only(ls: Seq<Seq<char>>, tn: Seq<char>, out: Seq<Seq<char>>)
    requires
        mark_lines(ls, tn) == Some(out),
    ensures
        out.len() == ls.len(),
        exists|k: int|
            #![trigger out[k]]
            0 <= k < ls.len() && line_matches(ls[k], tn) && (forall|j: int|
                0 <= j < k ==> !line_matches(#[trigger] ls[j], tn)) && out[k] == rewrite_line(
                ls[k],
            ) && (forall|j: int| 0 <= j < ls.len() && j != k ==> #[trigger] out[j] == ls[j]),
{
    lemma_find_match_props(ls, tn);
    let k = find_match(ls, tn).unwrap();
    assert(out == ls.update(k, rewrite_line(ls[k])));
    assert(out[k] == rewrite_line(ls[k]));
    assert(forall|j: int| 0 <= j < ls.len() && j != k ==> #[trigger] out[j] == ls[j]);
}

/// Law: lines that are no item lines never match, so marking never touches
/// passthrough content: every non-item line of the input stands unchanged in
/// the output, at its own place.
pub proof fn lemma_mark_keeps_non_items(ls: Seq<Seq<char>>, tn: Seq<char>, out: Seq<Seq<char>>)
    requires
        mark_lines(ls, tn) == Some(out),
    ensures
        out.len() == ls.len(),
        forall|j: int|
            0 <= j < ls.len() && line_item(#[trigger] ls[j]) is None ==> out[j] == ls[j],
{
    lemma_find_match_props(ls, tn);
    let k = find_match(ls, tn).unwrap();
    assert(line_matches(ls[k], tn));
    assert(line_item(ls[k]) is Some);
    assert(forall|j: int| 0 <= j < ls.len() && j != k ==> #[trigger] out[j] == ls[j]);
}

/// Law: a target that matches no line of the document leaves it untouched:
/// marking produces no rewritten text at all.
pub proof fn lemma_mark_no_match(s: Seq<char>, target: Seq<char>)
    requires
        forall|j: int|
            0 <= j < spec_lines(s).len() ==> !line_matches(
                #[trigger] spec_lines(s)[j],
                spec_normalize(target),
            ),
    ensures
        spec_mark(s, target) is None,
{
    lemma_find_match_at(spec_lines(s), spec_normalize(target), spec_lines(s).len() as int);
}

} // verus!
