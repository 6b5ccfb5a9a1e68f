//! Templates: which of them can include themselves.
use vstd::prelude::*;

use crate::gateway::backend::mqtt::{
    command_topic, command_topic_may_include_itself, GatewayBackendMqtt,
};
use crate::gateway::backend::templates::{
    behind_space, computes_name, ends_inline, is_tag_filler, is_tag_space, marked, mentions,
    partial_between, raw_block_at, tag_open, takes_partial, template_may_include_itself, text_at,
};

verus! {

/// Whether a text stands somewhere in a template.
pub open spec fn is_part(template: Seq<char>, text: Seq<char>) -> bool {
    exists|before: Seq<char>, after: Seq<char>| template == #[trigger] (before + text + after)
}

/// Whether a text is made of these characters.
pub open spec fn is_made_of(s: Seq<char>, characters: Seq<char>) -> bool {
    forall|i: int| 0 <= i < s.len() ==> characters.contains(#[trigger] s[i])
}

/// Whether a template is `before`, two braces, white space and marks of blocks, `mark`, and `after`.
pub open spec fn has_tag(
    template: Seq<char>,
    before: Seq<char>,
    filler: Seq<char>,
    mark: char,
    after: Seq<char>,
) -> bool {
    &&& template == before + "{{"@ + filler + seq![mark] + after
    &&& is_made_of(filler, seq![' ', '\t', '\n', '\r', '~', '#'])
}

/// Where the mark of a tag stands.
pub open spec fn mark_place(before: Seq<char>, filler: Seq<char>) -> int {
    before.len() as int + 2 + filler.len()
}

/// Whether a template has a block of any kind.
pub open spec fn has_any_block(template: Seq<char>) -> bool {
    template.contains('#') || is_part(template, "{{{{"@)
}

proof fn lemma_part(template: Seq<char>, text: Seq<char>)
    ensures
        is_part(template, text) <==> mentions(template, text),
{
    if is_part(template, text) {
        let (before, after) = choose|before: Seq<char>, after: Seq<char>|
            template == #[trigger] (before + text + after);
        let i: int = before.len() as int;
        assert(template.subrange(i, i + text.len()) =~= text);
        assert(text_at(template, text, i));
    }
    if mentions(template, text) {
        let i = choose|i: int| text_at(template, text, i);
        let (before, after) = (template.take(i), template.skip(i + text.len()));
        assert forall|k: int| 0 <= k < text.len() implies template[i + k] == #[trigger] text[k] by {
            assert(template.subrange(i, i + text.len())[k] == text[k]);
        }
        assert(template =~= before + text + after);
    }
}

proof fn lemma_raw_block(template: Seq<char>)
    ensures
        is_part(template, "{{{{"@) <==> exists|i: int| raw_block_at(template, i),
{
    let braces = "{{{{"@;
    reveal_strlit("{{{{");
    lemma_part(template, braces);
    if mentions(template, braces) {
        let i = choose|i: int| text_at(template, braces, i);
        let here = template.subrange(i, i + 4);
        assert(here == braces);
        assert(here[0] == template[i] && here[1] == template[i + 1]);
        assert(here[2] == template[i + 2] && here[3] == template[i + 3]);
        assert(raw_block_at(template, i));
    }
    if exists|i: int| raw_block_at(template, i) {
        let i = choose|i: int| raw_block_at(template, i);
        assert(template.subrange(i, i + 4) =~= braces);
        assert(text_at(template, braces, i));
    }
}

proof fn lemma_tag(
    template: Seq<char>,
    before: Seq<char>,
    filler: Seq<char>,
    mark: char,
    after: Seq<char>,
)
    requires
        has_tag(template, before, filler, mark, after),
    ensures
        marked(template, mark_place(before, filler), mark),
        template.skip(mark_place(before, filler) + 1) == after,
{
    reveal_strlit("{{");
    let i: int = before.len() as int;
    let j: int = i + 2 + filler.len();
    assert forall|k: int| i + 2 <= k < j implies is_tag_filler(#[trigger] template[k]) by {
        assert(template[k] == filler[k - i - 2]);
    }
    assert(tag_open(template, i, j));
    assert(template.skip(j + 1) =~= after);
}

proof fn lemma_behind(template: Seq<char>, k: int, space: Seq<char>, rest: Seq<char>)
    requires
        0 <= k <= template.len(),
        template.skip(k) == space + rest,
        is_made_of(space, seq![' ', '\t', '\n', '\r']),
        rest.len() > 0 ==> !is_tag_space(rest[0]),
    ensures
        behind_space(template, k) == k + space.len(),
    decreases space.len(),
{
    let tail = template.skip(k);
    assert(tail.len() == template.len() - k);
    assert(tail.len() == space.len() + rest.len());
    if space.len() > 0 {
        assert(tail[0] == space[0]);
        assert(template[k] == tail[0]);
        let fewer = space.drop_first();
        assert forall|i: int| 0 <= i < fewer.len() implies seq![' ', '\t', '\n', '\r'].contains(
            #[trigger] fewer[i],
        ) by {
            assert(fewer[i] == space[i + 1]);
        }
        assert(template.skip(k + 1) =~= fewer + rest) by {
            assert forall|i: int| 0 <= i < fewer.len() + rest.len() implies template.skip(k + 1)[i]
                == #[trigger] (fewer + rest)[i] by {
                assert(template.skip(k + 1)[i] == tail[i + 1]);
            }
        }
        lemma_behind(template, k + 1, fewer, rest);
    } else if rest.len() > 0 {
        assert(tail[0] == rest[0]);
        assert(template[k] == tail[0]);
    }
}

proof fn lemma_mark(template: Seq<char>, j: int, mark: char) -> (parts: (
    Seq<char>,
    Seq<char>,
    Seq<char>,
))
    requires
        marked(template, j, mark),
    ensures
        has_tag(template, parts.0, parts.1, mark, parts.2),
        mark_place(parts.0, parts.1) == j,
        parts.2 == template.skip(j + 1),
{
    reveal_strlit("{{");
    let i = choose|i: int| tag_open(template, i, j);
    let (before, filler) = (template.take(i), template.subrange(i + 2, j));
    let after = template.skip(j + 1);
    let fillers = seq![' ', '\t', '\n', '\r', '~', '#'];
    assert forall|k: int| 0 <= k < filler.len() implies fillers.contains(#[trigger] filler[k]) by {
        assert(is_tag_filler(template[i + 2 + k]));
        lemma_filler(filler[k]);
    }
    assert(template =~= before + "{{"@ + filler + seq![mark] + after);
    (before, filler, after)
}

proof fn lemma_filler(c: char)
    ensures
        is_tag_filler(c) <==> seq![' ', '\t', '\n', '\r', '~', '#'].contains(c),
        is_tag_space(c) <==> seq![' ', '\t', '\n', '\r'].contains(c),
{
    let fillers = seq![' ', '\t', '\n', '\r', '~', '#'];
    let spaces = seq![' ', '\t', '\n', '\r'];
    assert(fillers[0] == ' ' && fillers[1] == '\t' && fillers[2] == '\n' && fillers[3] == '\r');
    assert(fillers[4] == '~' && fillers[5] == '#');
    assert(spaces[0] == ' ' && spaces[1] == '\t' && spaces[2] == '\n' && spaces[3] == '\r');
}

proof fn lemma_behind_parts(template: Seq<char>, k: int) -> (parts: (Seq<char>, Seq<char>))
    requires
        0 <= k <= template.len(),
    ensures
        template.skip(k) == parts.0 + parts.1,
        is_made_of(parts.0, seq![' ', '\t', '\n', '\r']),
        k + parts.0.len() == behind_space(template, k),
        behind_space(template, k) <= template.len(),
        parts.1 == template.skip(behind_space(template, k)),
    decreases template.len() - k,
{
    if k < template.len() && is_tag_space(template[k]) {
        let (fewer, rest) = lemma_behind_parts(template, k + 1);
        let space = seq![template[k]] + fewer;
        let spaces = seq![' ', '\t', '\n', '\r'];
        assert forall|i: int| 0 <= i < space.len() implies spaces.contains(#[trigger] space[i]) by {
            lemma_filler(template[k]);
            if i > 0 {
                assert(space[i] == fewer[i - 1]);
            }
        }
        assert(template.skip(k) =~= seq![template[k]] + template.skip(k + 1));
        assert(template.skip(k) =~= space + rest);
        (space, rest)
    } else {
        assert(template.skip(k) =~= Seq::<char>::empty() + template.skip(k));
        (Seq::empty(), template.skip(k))
    }
}

/// Whether a template has a tag with `mark`, `space`, and `rest` behind that.
pub open spec fn has_tag_then(
    template: Seq<char>,
    before: Seq<char>,
    filler: Seq<char>,
    mark: char,
    space: Seq<char>,
    rest: Seq<char>,
) -> bool {
    &&& has_tag(template, before, filler, mark, space + rest)
    &&& is_made_of(space, seq![' ', '\t', '\n', '\r'])
}

/// Whether the name of a partial of a template is computed.
pub open spec fn has_computed_partial(template: Seq<char>) -> bool {
    exists|before: Seq<char>, filler: Seq<char>, space: Seq<char>, rest: Seq<char>| #[trigger]
        has_tag_then(template, before, filler, '>', space, rest) && rest.len() > 0 && rest[0] == '('
}

/// Whether a template has a partial.
pub open spec fn has_partial(template: Seq<char>) -> bool {
    exists|before: Seq<char>, filler: Seq<char>, after: Seq<char>| #[trigger]
        has_tag(template, before, filler, '>', after)
}

/// Whether a text can stand behind the mark of the tag that ends an inline partial.
pub open spec fn is_end_of_inline(rest: Seq<char>) -> bool {
    rest.len() > 0 && (rest[0] == '}' || rest[0] == '~' || "inline"@.is_prefix_of(rest))
}

/// Whether the marks of a decorator, a partial and the end of an inline partial stand in a template
/// at `d`, `p` and `e`, one after the other.
pub open spec fn has_partial_inside(template: Seq<char>, d: int, p: int, e: int) -> bool {
    &&& d < p < e
    &&& exists|before: Seq<char>, filler: Seq<char>, after: Seq<char>| #[trigger]
        has_tag(template, before, filler, '*', after) && mark_place(before, filler) == d
    &&& exists|before: Seq<char>, filler: Seq<char>, after: Seq<char>| #[trigger]
        has_tag(template, before, filler, '>', after) && mark_place(before, filler) == p
    &&& exists|before: Seq<char>, filler: Seq<char>, space: Seq<char>, rest: Seq<char>| #[trigger]
        has_tag_then(template, before, filler, '/', space, rest) && mark_place(before, filler) == e
            && is_end_of_inline(rest)
}

proof fn lemma_partial(t: Seq<char>, j: int)
    requires
        marked(t, j, '>'),
    ensures
        has_partial(t),
{
    let (before, filler, after) = lemma_mark(t, j, '>');
    assert(has_tag(t, before, filler, '>', after));
}

proof fn lemma_computed_partial(t: Seq<char>, j: int)
    requires
        computes_name(t, j),
    ensures
        has_computed_partial(t),
{
    let (before, filler, after) = lemma_mark(t, j, '>');
    let (space, rest) = lemma_behind_parts(t, j + 1);
    assert(has_tag_then(t, before, filler, '>', space, rest));
    assert(rest[0] == t[behind_space(t, j + 1)]);
}

proof fn lemma_inline_ends(t: Seq<char>, e: int)
    requires
        ends_inline(t, e),
    ensures
        exists|before: Seq<char>, filler: Seq<char>, space: Seq<char>, rest: Seq<char>| #[trigger]
            has_tag_then(t, before, filler, '/', space, rest) && mark_place(before, filler) == e
                && is_end_of_inline(rest),
{
    let (before, filler, after) = lemma_mark(t, e, '/');
    let (space, rest) = lemma_behind_parts(t, e + 1);
    let k = behind_space(t, e + 1);
    assert(rest[0] == t[k]);
    if text_at(t, "inline"@, k) {
        reveal_strlit("inline");
        assert(rest.take(6) =~= t.subrange(k, k + 6));
    }
    assert(has_tag_then(t, before, filler, '/', space, rest));
}

proof fn lemma_partial_inside(t: Seq<char>, d: int, p: int, e: int)
    requires
        partial_between(t, d, p, e),
    ensures
        has_partial_inside(t, d, p, e),
{
    let (before, filler, after) = lemma_mark(t, d, '*');
    assert(has_tag(t, before, filler, '*', after));
    let (before, filler, after) = lemma_mark(t, p, '>');
    assert(has_tag(t, before, filler, '>', after));
    lemma_inline_ends(t, e);
}

/// A template can include itself only if it has a block and a partial, and either its own name stands
/// in it or the name of a partial is computed; or if an inline partial can have a partial inside.
pub proof fn law_few_templates_include_themselves(name: &str, template: &str, r: bool)
    requires
        call_ensures(template_may_include_itself, (name, template), r),
        r,
    ensures
        ({
            ||| has_any_block(template@) && has_partial(template@) && (is_part(template@, name@)
                || has_computed_partial(template@))
            ||| exists|d: int, p: int, e: int| #[trigger] has_partial_inside(template@, d, p, e)
        }),
{
    let t = template@;
    lemma_part(t, name@);
    lemma_raw_block(t);
    if takes_partial(t) {
        let j = choose|j: int| marked(t, j, '>');
        lemma_partial(t, j);
    }
    if exists|j: int| computes_name(t, j) {
        let j = choose|j: int| computes_name(t, j);
        lemma_computed_partial(t, j);
    }
    if exists|d: int, p: int, e: int| partial_between(t, d, p, e) {
        let (d, p, e) = choose|d: int, p: int, e: int| partial_between(t, d, p, e);
        lemma_partial_inside(t, d, p, e);
    }
}

/// A template that has a block and a partial can include itself where the name of a partial is
/// computed, and where its own name stands anywhere in it.
pub proof fn law_template_with_block_and_partial(name: &str, template: &str, r: bool)
    requires
        call_ensures(template_may_include_itself, (name, template), r),
        has_any_block(template@),
        has_partial(template@),
        is_part(template@, name@) || has_computed_partial(template@),
    ensures
        r,
{
    let t = template@;
    lemma_part(t, name@);
    lemma_raw_block(t);
    let (before, filler, after) = choose|before: Seq<char>, filler: Seq<char>, after: Seq<char>|
        #[trigger] has_tag(t, before, filler, '>', after);
    lemma_tag(t, before, filler, '>', after);
    assert(takes_partial(t));
    if has_computed_partial(t) {
        let (before, filler, space, rest) = choose|
            before: Seq<char>,
            filler: Seq<char>,
            space: Seq<char>,
            rest: Seq<char>,
        | #[trigger]
            has_tag_then(t, before, filler, '>', space, rest) && rest.len() > 0 && rest[0] == '(';
        let j: int = mark_place(before, filler);
        lemma_tag(t, before, filler, '>', space + rest);
        lemma_behind(t, j + 1, space, rest);
        assert(t.skip(j + 1).len() == space.len() + rest.len());
        assert(t.skip(j + 1)[space.len() as int] == rest[0]);
        assert(computes_name(t, j));
    }
}

proof fn lemma_end_of_inline(
    t: Seq<char>,
    before: Seq<char>,
    filler: Seq<char>,
    space: Seq<char>,
    rest: Seq<char>,
)
    requires
        has_tag(t, before, filler, '/', space + rest),
        is_made_of(space, seq![' ', '\t', '\n', '\r']),
        is_end_of_inline(rest),
    ensures
        ends_inline(t, mark_place(before, filler)),
{
    reveal_strlit("inline");
    lemma_tag(t, before, filler, '/', space + rest);
    let e: int = mark_place(before, filler);
    let inline = "inline"@;
    if inline.is_prefix_of(rest) {
        assert(rest.take(6)[0] == rest[0]);
    }
    assert(!is_tag_space(rest[0]));
    lemma_behind(t, e + 1, space, rest);
    let k: int = e + 1 + space.len();
    let tail = t.skip(e + 1);
    assert(tail.len() == space.len() + rest.len());
    assert(t[k] == tail[space.len() as int]);
    if inline.is_prefix_of(rest) {
        assert forall|i: int| 0 <= i < 6 implies t[k + i] == #[trigger] inline[i] by {
            assert(tail[space.len() + i] == rest[i]);
            assert(t[k + i] == tail[space.len() + i]);
            assert(rest.take(6)[i] == rest[i]);
        }
        assert(t.subrange(k, k + 6) =~= inline);
    }
}

/// A template can include itself where an inline partial can have a partial inside.
pub proof fn law_template_with_partial_inside(
    name: &str,
    template: &str,
    d: int,
    p: int,
    e: int,
    r: bool,
)
    requires
        call_ensures(template_may_include_itself, (name, template), r),
        has_partial_inside(template@, d, p, e),
    ensures
        r,
{
    let t = template@;
    assert(partial_between(t, d, p, e)) by {
        let (before, filler, after) = choose|
            before: Seq<char>,
            filler: Seq<char>,
            after: Seq<char>,
        | #[trigger]
            has_tag(t, before, filler, '*', after) && mark_place(before, filler) == d;
        lemma_tag(t, before, filler, '*', after);
        let (before, filler, after) = choose|
            before: Seq<char>,
            filler: Seq<char>,
            after: Seq<char>,
        | #[trigger]
            has_tag(t, before, filler, '>', after) && mark_place(before, filler) == p;
        lemma_tag(t, before, filler, '>', after);
        let (before, filler, space, rest) = choose|
            before: Seq<char>,
            filler: Seq<char>,
            space: Seq<char>,
            rest: Seq<char>,
        | #[trigger]
            has_tag_then(t, before, filler, '/', space, rest) && mark_place(before, filler) == e
                && is_end_of_inline(rest);
        lemma_end_of_inline(t, before, filler, space, rest);
    }
}

/// The template of the command topic goes by the name `command_topic`.
pub proof fn law_command_topic_includes_itself(
    conf: &GatewayBackendMqtt,
    topic: String,
    template: &str,
    any: bool,
    r: bool,
)
    requires
        call_ensures(command_topic, (conf,), topic),
        template@ == topic@,
        call_ensures(template_may_include_itself, ("command_topic", template), any),
        call_ensures(command_topic_may_include_itself, (conf,), r),
    ensures
        r == any,
{
}

} // verus!
