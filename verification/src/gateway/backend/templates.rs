//! The templates that topics are made from, as `handlebars` renders them.
use handlebars::Handlebars;

use vstd::prelude::*;

verus! {

/// `handlebars::Handlebars`. The templates that a registry holds are named by `templates`.
#[verifier::external_type_specification]
#[verifier::external_body]
pub struct ExHandlebars<'reg>(handlebars::Handlebars<'reg>);

/// `handlebars::TemplateError`. It is carried along, and nothing is known of what is inside.
#[verifier::external_type_specification]
#[verifier::external_body]
pub struct ExTemplateError(handlebars::TemplateError);

/// `handlebars::RenderError`. It is carried along, and nothing is known of what is inside.
#[verifier::external_type_specification]
#[verifier::external_body]
pub struct ExRenderError(handlebars::RenderError);

/// The templates that a registry holds: their texts, by their names.
pub uninterp spec fn templates(registry: handlebars::Handlebars<'static>) -> Map<Seq<char>, Seq<char>>;

/// Whether a registry has the settings and helpers that it had when it was made.
pub uninterp spec fn unconfigured(registry: handlebars::Handlebars<'static>) -> bool;

/// Whether a text is a template, as far as its syntax goes.
pub uninterp spec fn compiles(template: Seq<char>) -> bool;

/// What the template `name` among `templates` gives for a context, where it gives anything. The
/// context is variables with their values; of two variables of the same name the later one counts.
pub uninterp spec fn rendered(
    templates: Map<Seq<char>, Seq<char>>,
    name: Seq<char>,
    context: Seq<(Seq<char>, Seq<char>)>,
) -> Option<Seq<char>>;

/// Whether a character is white space to `handlebars`.
pub open spec fn is_tag_space(c: char) -> bool {
    c == ' ' || c == '\t' || c == '\n' || c == '\r'
}

/// Whether a character can stand between the braces of a tag and the mark that says which tag it
/// is: white space, the mark for white space control, or the mark of a block.
pub open spec fn is_tag_filler(c: char) -> bool {
    is_tag_space(c) || c == '~' || c == '#'
}

/// Whether a tag is opened at `i`, and up to `j` nothing says which tag it is.
pub open spec fn tag_open(template: Seq<char>, i: int, j: int) -> bool {
    &&& 0 <= i && i + 2 <= j <= template.len()
    &&& template[i] == '{' && template[i + 1] == '{'
    &&& forall|k: int| i + 2 <= k < j ==> is_tag_filler(#[trigger] template[k])
}

/// Whether a tag is opened before `j`, and up to there nothing says which tag it is.
pub open spec fn opened(template: Seq<char>, j: int) -> bool {
    exists|i: int| tag_open(template, i, j)
}

/// Whether `mark` stands at `j`, and says which tag it is that is opened before: `>` makes it a
/// partial, `*` a decorator, and `/` the end of a block.
pub open spec fn marked(template: Seq<char>, j: int, mark: char) -> bool {
    0 <= j < template.len() && template[j] == mark && opened(template, j)
}

/// The first place from `k` on that has no white space.
pub open spec fn behind_space(template: Seq<char>, k: int) -> int
    decreases template.len() - k,
{
    if 0 <= k < template.len() && is_tag_space(template[k]) {
        behind_space(template, k + 1)
    } else {
        k
    }
}

/// Whether `text` stands in a template at `i`.
pub open spec fn text_at(template: Seq<char>, text: Seq<char>, i: int) -> bool {
    0 <= i && i + text.len() <= template.len() && template.subrange(i, i + text.len()) == text
}

/// Whether `text` stands anywhere in a template.
pub open spec fn mentions(template: Seq<char>, text: Seq<char>) -> bool {
    exists|i: int| text_at(template, text, i)
}

/// Whether a template takes a partial.
pub open spec fn takes_partial(template: Seq<char>) -> bool {
    exists|j: int| marked(template, j, '>')
}

/// Whether the partial with its mark at `j` has a name that is computed.
pub open spec fn computes_name(template: Seq<char>, j: int) -> bool {
    let k = behind_space(template, j + 1);
    marked(template, j, '>') && k < template.len() && template[k] == '('
}

/// Whether the tag with its mark at `j` can end an inline partial.
pub open spec fn ends_inline(template: Seq<char>, j: int) -> bool {
    let k = behind_space(template, j + 1);
    &&& marked(template, j, '/')
    &&& k < template.len()
    &&& template[k] == '}' || template[k] == '~' || text_at(template, "inline"@, k)
}

/// Whether four opening braces stand at `i`, as at the start of a raw block.
pub open spec fn raw_block_at(template: Seq<char>, i: int) -> bool {
    &&& 0 <= i && i + 4 <= template.len()
    &&& template[i] == '{' && template[i + 1] == '{'
    &&& template[i + 2] == '{' && template[i + 3] == '{'
}

/// Whether a template has a block of any kind, a raw block included.
pub open spec fn has_block(template: Seq<char>) -> bool {
    template.contains('#') || exists|i: int| raw_block_at(template, i)
}

/// Whether a template can name itself as a partial where `handlebars` does not see that: it has a
/// block, and a partial whose name is `name` or computed. In a template without blocks,
/// `handlebars` turns such a partial down.
pub open spec fn may_name_itself(name: Seq<char>, template: Seq<char>) -> bool {
    &&& takes_partial(template)
    &&& has_block(template)
    &&& mentions(template, name) || exists|j: int| computes_name(template, j)
}

/// Whether, by their marks at `d`, `p` and `e`, a decorator, a partial and the end of an inline
/// partial follow one another.
pub open spec fn partial_between(template: Seq<char>, d: int, p: int, e: int) -> bool {
    &&& d < p < e
    &&& marked(template, d, '*')
    &&& marked(template, p, '>')
    &&& ends_inline(template, e)
}

/// Whether an inline partial of a template can take a partial itself.
pub open spec fn may_nest_inline(template: Seq<char>) -> bool {
    exists|d: int, p: int, e: int| partial_between(template, d, p, e)
}

/// Whether the template `name` can include itself, or one of its inline partials, without end.
/// Otherwise what it includes are inline partials that include nothing.
pub open spec fn may_include_itself(name: Seq<char>, template: Seq<char>) -> bool {
    may_name_itself(name, template) || may_nest_inline(template)
}

/// The characters of a text.
fn characters(s: &str) -> (r: Vec<char>)
    ensures
        r@ == s@,
{
    let len: usize = s.unicode_len();
    let mut r: Vec<char> = Vec::new();
    let mut i: usize = 0;
    while i < len
        invariant
            i <= len,
            len == s@.len(),
            r@ == s@.take(i as int),
        decreases len - i,
    {
        r.push(s.get_char(i));
        assert(s@.take(i + 1) =~= s@.take(i as int).push(s@[i as int]));
        i += 1;
    }
    assert(s@.take(i as int) =~= s@);
    r
}

/// The first place from `k` on that has no white space.
fn skip_space(template: &Vec<char>, k: usize) -> (r: usize)
    requires
        k <= template@.len(),
    ensures
        r == behind_space(template@, k as int),
        r <= template@.len(),
{
    let mut r: usize = k;
    while r < template.len() && (template[r] == ' ' || template[r] == '\t' || template[r] == '\n'
        || template[r] == '\r')
        invariant
            k <= r <= template@.len(),
            behind_space(template@, k as int) == behind_space(template@, r as int),
        decreases template@.len() - r,
    {
        r += 1;
    }
    r
}

/// Whether `text` stands in a template at `i`.
fn has_text_at(template: &Vec<char>, text: &Vec<char>, i: usize) -> (r: bool)
    ensures
        r == text_at(template@, text@, i as int),
{
    if i > template.len() || text.len() > template.len() - i {
        return false;
    }
    let ghost here = template@.subrange(i as int, i + text@.len());
    let end: usize = template.len();
    let mut k: usize = 0;
    while k < text.len()
        invariant
            k <= text@.len(),
            end == template@.len(),
            i + text@.len() <= end,
            here == template@.subrange(i as int, i + text@.len()),
            forall|j: int| 0 <= j < k ==> here[j] == text@[j],
        decreases text@.len() - k,
    {
        if template[i + k] != text[k] {
            assert(here[k as int] != text@[k as int]);
            return false;
        }
        assert(here[k as int] == text@[k as int]);
        k += 1;
    }
    assert(here =~= text@);
    true
}

/// Whether `text` stands anywhere in a template.
fn has_text(template: &Vec<char>, text: &Vec<char>) -> (r: bool)
    ensures
        r == mentions(template@, text@),
{
    let mut i: usize = 0;
    while i < template.len()
        invariant
            i <= template@.len(),
            forall|k: int| k < i ==> !text_at(template@, text@, k),
        decreases template@.len() - i,
    {
        if has_text_at(template, text, i) {
            return true;
        }
        i += 1;
    }
    let r = has_text_at(template, text, i);
    assert(forall|k: int| k > i ==> !text_at(template@, text@, k));
    r
}

/// Whether a template has a block of any kind.
fn finds_block(template: &Vec<char>) -> (r: bool)
    ensures
        r == has_block(template@),
{
    let mut i: usize = 0;
    while i < template.len()
        invariant
            i <= template@.len(),
            forall|k: int| 0 <= k < i ==> template@[k] != '#',
            forall|k: int| k < i ==> !raw_block_at(template@, k),
        decreases template@.len() - i,
    {
        if template[i] == '#' {
            assert(template@.contains('#'));
            return true;
        }
        if template.len() - i >= 4 && template[i] == '{' && template[i + 1] == '{' && template[i + 2]
            == '{' && template[i + 3] == '{' {
            assert(raw_block_at(template@, i as int));
            return true;
        }
        i += 1;
    }
    false
}

/// What stands in a template, as far as its tags go.
struct TagKinds {
    /// There is a partial.
    partial: bool,
    /// There is a partial whose name is computed.
    computed: bool,
    /// An inline partial can take a partial.
    nested: bool,
}

/// Reads the tags of a template.
fn read_tags(template: &Vec<char>) -> (r: TagKinds)
    ensures
        r.partial == takes_partial(template@),
        r.computed == (exists|j: int| computes_name(template@, j)),
        r.nested == may_nest_inline(template@),
{
    let ghost t = template@;
    let inline = characters("inline");
    let mut open = false;
    let mut decorator = false;
    let mut partial_behind = false;
    let mut r = TagKinds { partial: false, computed: false, nested: false };
    let mut j: usize = 0;
    while j < template.len()
        invariant
            j <= t.len(),
            t == template@,
            inline@ == "inline"@,
            open == opened(t, j as int),
            decorator == (exists|d: int| d < j && marked(t, d, '*')),
            partial_behind == (exists|d: int, p: int|
                d < p < j && #[trigger] marked(t, d, '*') && #[trigger] marked(t, p, '>')),
            r.partial == (exists|p: int| p < j && marked(t, p, '>')),
            r.computed == (exists|p: int| p < j && computes_name(t, p)),
            r.nested == (exists|d: int, p: int, e: int| e < j && partial_between(t, d, p, e)),
        decreases t.len() - j,
    {
        let c = template[j];
        let k = skip_space(template, j + 1);
        if open && c == '>' {
            assert(marked(t, j as int, '>'));
            r.partial = true;
            if k < template.len() && template[k] == '(' {
                assert(computes_name(t, j as int));
                r.computed = true;
            }
            if decorator {
                partial_behind = true;
            }
        } else if open && c == '*' {
            assert(marked(t, j as int, '*'));
            decorator = true;
        } else if open && c == '/' {
            assert(marked(t, j as int, '/'));
            let ends = k < template.len() && (template[k] == '}' || template[k] == '~'
                || has_text_at(template, &inline, k));
            assert(ends == ends_inline(t, j as int));
            if ends && partial_behind {
                proof {
                    let (d, p) = choose|d: int, p: int|
                        d < p < j && #[trigger] marked(t, d, '*') && #[trigger] marked(t, p, '>');
                    assert(partial_between(t, d, p, j as int));
                }
                r.nested = true;
            }
        }
        let filler = c == ' ' || c == '\t' || c == '\n' || c == '\r' || c == '~' || c == '#';
        let now_open = (j > 0 && template[j - 1] == '{' && c == '{') || (open && filler);
        proof {
            lemma_opened(t, j as int);
        }
        open = now_open;
        j += 1;
    }
    assert(forall|p: int| #[trigger] marked(t, p, '>') ==> p < j);
    assert(forall|d: int, p: int, e: int| #[trigger] partial_between(t, d, p, e) ==> e < j);
    assert(forall|p: int| #[trigger] computes_name(t, p) ==> p < j);
    r
}

/// One character on, a tag is opened where it just was, or where a filler followed.
proof fn lemma_opened(t: Seq<char>, j: int)
    requires
        0 <= j < t.len(),
    ensures
        opened(t, j + 1) == ((j > 0 && t[j - 1] == '{' && t[j] == '{') || (opened(t, j)
            && is_tag_filler(t[j]))),
{
    let next = j + 1;
    if j > 0 && t[j - 1] == '{' && t[j] == '{' {
        assert(tag_open(t, j - 1, next));
    }
    if opened(t, j) && is_tag_filler(t[j]) {
        let i = choose|i: int| tag_open(t, i, j);
        assert(tag_open(t, i, next));
    }
    if opened(t, next) {
        let i = choose|i: int| tag_open(t, i, next);
        if i + 2 <= j {
            assert(is_tag_filler(t[j]));
            assert(tag_open(t, i, j));
        }
    }
}

/// Whether the template `name` can include itself, or one of its inline partials, without end.
pub fn template_may_include_itself(name: &str, template: &str) -> (r: bool)
    ensures
        r == may_include_itself(name@, template@),
{
    let template = characters(template);
    let kinds = read_tags(&template);
    kinds.nested || (kinds.partial && finds_block(&template) && (kinds.computed || has_text(
        &template,
        &characters(name),
    )))
}

/// An empty registry, by `Handlebars::new`.
#[verifier::external_body]
pub(crate) fn new_registry() -> (r: Handlebars<'static>)
    ensures
        templates(r).dom() == Set::<Seq<char>>::empty(),
        unconfigured(r),
{
    Handlebars::new()
}

/// Adds a template, by `Handlebars::register_template_string`: one of the same name is replaced,
/// and nothing changes where the text does not compile.
#[verifier::external_body]
pub(crate) fn register_template(registry: &mut Handlebars<'static>, name: &str, text: &str) -> (r:
    Result<(), handlebars::TemplateError>)
    requires
        unconfigured(*old(registry)),
    ensures
        r is Ok <==> compiles(text@),
        unconfigured(*final(registry)),
        templates(*final(registry)) == (if r is Ok {
            templates(*old(registry)).insert(name@, text@)
        } else {
            templates(*old(registry))
        }),
{
    registry.register_template_string(name, text)
}

/// A context as a mathematical value.
pub open spec fn context_view(context: Seq<(&str, &str)>) -> Seq<(Seq<char>, Seq<char>)> {
    Seq::new(context.len(), |i: int| (context[i].0@, context[i].1@))
}

/// Renders a template with a context, by `Handlebars::render`. A template that can include itself, or
/// one of its inline partials, without end is left out: the call might not return. So is a registry
/// with further templates, which could include one another.
#[verifier::external_body]
pub(crate) fn render(
    registry: &Handlebars<'static>,
    name: &str,
    context: [(&str, &str); 2],
) -> (r: Result<String, handlebars::RenderError>)
    requires
        unconfigured(*registry),
        templates(*registry).dom() == set![name@],
        !may_include_itself(name@, templates(*registry)[name@]),
    ensures
        match r {
            Ok(text) => rendered(templates(*registry), name@, context_view(context@)) == Some(text@),
            Err(_) => rendered(templates(*registry), name@, context_view(context@)) is None,
        },
{
    registry.render(name, &std::collections::BTreeMap::from(context))
}

} // verus!
