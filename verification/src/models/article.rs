//! Articles: their list entries and their contents in the Editor.js block
//! format, with text cleaned of `&nbsp;` entities.
use vstd::prelude::*;
use vstd::string::*;
use std::collections::HashMap;
use crate::models::rubrics::Rubric;

verus! {

/// The entity that the editor leaves in text for a non-breaking space.
pub open spec fn nbsp() -> Seq<char> {
    seq!['&', 'n', 'b', 's', 'p', ';']
}

/// `s` holds the entity at position `i`.
pub open spec fn nbsp_at(s: Seq<char>, i: int) -> bool {
    0 <= i && i + 6 <= s.len() && s.subrange(i, i + 6) == nbsp()
}

/// `s` holds the entity somewhere.
pub open spec fn contains_nbsp(s: Seq<char>) -> bool {
    exists|i: int| nbsp_at(s, i)
}

/// `s` with each `&nbsp;` replaced by a space, scanning left to right as
/// `str::replace` does.
pub open spec fn clean_nbsp(s: Seq<char>) -> Seq<char>
    decreases s.len(),
{
    if s.len() == 0 {
        s
    } else if nbsp_at(s, 0) {
        seq![' '] + clean_nbsp(s.subrange(6, s.len() as int))
    } else {
        seq![s[0]] + clean_nbsp(s.subrange(1, s.len() as int))
    }
}

/// Text from the editor, with every `&nbsp;` turned into a plain space.
#[derive(Debug)]
pub struct CleanString(String);

impl View for CleanString {
    type V = Seq<char>;

    closed spec fn view(&self) -> Seq<char> {
        self.0@
    }
}

impl CleanString {
    #[verifier::type_invariant]
    closed spec fn wf(self) -> bool {
        !contains_nbsp(self.0@)
    }

    /// Cleans text as it arrives from the editor.
    pub fn new(raw: String) -> (r: CleanString)
        ensures
            r@ == clean_nbsp(raw@),
    {
        let cleaned = replace_nbsp(raw.as_str());
        proof {
            lemma_clean_has_no_nbsp(raw@);
        }
        CleanString(cleaned)
    }

    /// The empty text.
    pub fn empty() -> (r: CleanString)
        ensures
            r@ == Seq::<char>::empty(),
    {
        let s = String::new();
        proof {
            assert(!contains_nbsp(s@));
        }
        CleanString(s)
    }

    /// The cleaned text.
    pub fn as_str(&self) -> (r: &str)
        ensures
            r@ == self@,
    {
        self.0.as_str()
    }
}

/// The characters of `s`.
fn chars_of(s: &str) -> (cs: Vec<char>)
    ensures
        cs@ == s@,
{
    let n = s.unicode_len();
    let mut cs: Vec<char> = Vec::new();
    let mut i: usize = 0;
    while i < n
        invariant
            n == s@.len(),
            i <= n,
            cs@ == s@.subrange(0, i as int),
        decreases n - i,
    {
        cs.push(s.get_char(i));
        i = i + 1;
        assert(cs@ =~= s@.subrange(0, i as int));
    }
    assert(cs@ =~= s@);
    cs
}

fn nbsp_starts_at(cs: &Vec<char>, i: usize) -> (r: bool)
    requires
        i <= cs@.len(),
    ensures
        r == nbsp_at(cs@, i as int),
{
    if cs.len() - i < 6 {
        return false;
    }
    let r = cs[i] == '&' && cs[i + 1] == 'n' && cs[i + 2] == 'b' && cs[i + 3] == 's' && cs[i
        + 4] == 'p' && cs[i + 5] == ';';
    assert(r == (cs@.subrange(i as int, i + 6) =~= nbsp()));
    r
}

/// `raw` with each `&nbsp;` replaced by a space.
fn replace_nbsp(raw: &str) -> (out: String)
    ensures
        out@ == clean_nbsp(raw@),
{
    let cs = chars_of(raw);
    let n = cs.len();
    let ghost s = raw@;
    let mut out = String::new();
    let mut start: usize = 0;
    let mut i: usize = 0;
    assert(s.subrange(0, 0) =~= Seq::<char>::empty());
    assert(s.subrange(0, n as int) =~= s);
    assert(out@ + s.subrange(0, 0) =~= Seq::<char>::empty());
    while i < n
        invariant
            n == s.len(),
            cs@ == s,
            raw@ == s,
            start <= i <= n,
            clean_nbsp(s) == out@ + s.subrange(start as int, i as int) + clean_nbsp(
                s.subrange(i as int, n as int),
            ),
        decreases n - i,
    {
        let ghost rest = s.subrange(i as int, n as int);
        proof {
            if i + 6 <= n {
                assert(rest.subrange(0, 6) =~= s.subrange(i as int, i + 6));
            }
        }
        if nbsp_starts_at(&cs, i) {
            proof {
                assert(rest.subrange(0, 6) =~= s.subrange(i as int, i + 6));
                assert(rest.subrange(6, rest.len() as int) =~= s.subrange(i + 6, n as int));
            }
            let ghost before = out@;
            out.append(raw.substring_char(start, i));
            proof {
                reveal_strlit(" ");
            }
            out.append(" ");
            i = i + 6;
            start = i;
            proof {
                assert(s.subrange(start as int, i as int) =~= Seq::<char>::empty());
                assert(clean_nbsp(s) =~= out@ + s.subrange(start as int, i as int) + clean_nbsp(
                    s.subrange(i as int, n as int),
                ));
            }
        } else {
            proof {
                assert(!nbsp_at(rest, 0));
                assert(rest[0] == s[i as int]);
                assert(rest.subrange(1, rest.len() as int) =~= s.subrange(i + 1, n as int));
                assert(s.subrange(start as int, i + 1) =~= s.subrange(start as int, i as int)
                    + seq![s[i as int]]);
            }
            i = i + 1;
            proof {
                assert(clean_nbsp(s) =~= out@ + s.subrange(start as int, i as int) + clean_nbsp(
                    s.subrange(i as int, n as int),
                ));
            }
        }
    }
    out.append(raw.substring_char(start, n));
    proof {
        assert(s.subrange(n as int, n as int) =~= Seq::<char>::empty());
        assert(out@ =~= clean_nbsp(s));
    }
    out
}

/// If `w` holds neither `&` nor a space, cleaned text starts with `w` only
/// where the raw text does.
proof fn lemma_clean_prefix(s: Seq<char>, w: Seq<char>)
    requires
        forall|k: int| 0 <= k < w.len() ==> #[trigger] w[k] != '&' && w[k] != ' ',
        w.len() <= clean_nbsp(s).len(),
        clean_nbsp(s).subrange(0, w.len() as int) == w,
    ensures
        w.len() <= s.len(),
        s.subrange(0, w.len() as int) == w,
    decreases s.len(),
{
    if w.len() == 0 {
        assert(s.subrange(0, 0) =~= w);
    } else {
        let c = clean_nbsp(s);
        assert(c[0] == w[0]);
        if s.len() == 0 {
        } else if nbsp_at(s, 0) {
            assert(c[0] == ' ');
        } else {
            let rest = s.subrange(1, s.len() as int);
            let w1 = w.subrange(1, w.len() as int);
            assert(c == seq![s[0]] + clean_nbsp(rest));
            assert(clean_nbsp(rest).subrange(0, w1.len() as int) =~= c.subrange(1, w.len() as int));
            assert(c.subrange(1, w.len() as int) =~= w1);
            lemma_clean_prefix(rest, w1);
            assert(s.subrange(0, w.len() as int) =~= seq![s[0]] + rest.subrange(0, w1.len() as int));
            assert(w =~= seq![w[0]] + w1);
        }
    }
}

/// Law: cleaned text holds no `&nbsp;`, whatever the raw text was.
pub proof fn lemma_clean_has_no_nbsp(s: Seq<char>)
    ensures
        !contains_nbsp(clean_nbsp(s)),
    decreases s.len(),
{
    let c = clean_nbsp(s);
    if s.len() == 0 {
    } else {
        let tail = if nbsp_at(s, 0) {
            s.subrange(6, s.len() as int)
        } else {
            s.subrange(1, s.len() as int)
        };
        lemma_clean_has_no_nbsp(tail);
        let head = if nbsp_at(s, 0) {
            ' '
        } else {
            s[0]
        };
        assert(c == seq![head] + clean_nbsp(tail));
        assert forall|j: int| !nbsp_at(c, j) by {
            if nbsp_at(c, j) {
                if j == 0 {
                    assert(c[0] == '&') by {
                        assert(c.subrange(0, 6)[0] == nbsp()[0]);
                    }
                    assert(head == '&');
                    let w = seq!['n', 'b', 's', 'p', ';'];
                    assert(clean_nbsp(tail).subrange(0, 5) =~= c.subrange(1, 6));
                    assert(c.subrange(1, 6) =~= w) by {
                        assert(c.subrange(0, 6) =~= nbsp());
                    }
                    lemma_clean_prefix(tail, w);
                    assert(!nbsp_at(s, 0));
                    assert(s[0] == '&');
                    assert(s.subrange(0, 6) =~= seq![s[0]] + tail.subrange(0, 5));
                    assert(s.subrange(0, 6) =~= nbsp());
                    assert(nbsp_at(s, 0));
                } else {
                    assert(clean_nbsp(tail).subrange(j - 1, j + 5) =~= c.subrange(j, j + 6));
                    assert(nbsp_at(clean_nbsp(tail), j - 1));
                }
            }
        }
    }
}

/// Text without `&nbsp;` is left as it is.
pub proof fn lemma_clean_keeps_clean_text(s: Seq<char>)
    requires
        !contains_nbsp(s),
    ensures
        clean_nbsp(s) == s,
    decreases s.len(),
{
    if s.len() > 0 {
        assert(!nbsp_at(s, 0));
        let rest = s.subrange(1, s.len() as int);
        assert forall|j: int| !nbsp_at(rest, j) by {
            if nbsp_at(rest, j) {
                assert(s.subrange(j + 1, j + 7) =~= rest.subrange(j, j + 6));
                assert(nbsp_at(s, j + 1));
            }
        }
        lemma_clean_keeps_clean_text(rest);
        assert(s =~= seq![s[0]] + rest);
    }
}

/// Law: cleaning is idempotent; cleaned text cleaned again is unchanged.
pub proof fn lemma_clean_idempotent(s: Seq<char>)
    ensures
        clean_nbsp(clean_nbsp(s)) == clean_nbsp(s),
{
    lemma_clean_has_no_nbsp(s);
    lemma_clean_keeps_clean_text(clean_nbsp(s));
}

/// The list entry of an article: what the index pages, the dashboard and the
/// edit form show of it.
#[derive(Debug)]
pub struct ArticleForm {
    pub id: i32,
    pub title: String,
    pub author: String,
    pub cover: Option<String>,
    pub published: bool,
    pub rubrics: Vec<Rubric>,
}

/// The title a new article starts with ("draft").
pub const DRAFT_TITLE: &'static str = "Черновик";

impl Default for ArticleForm {
    fn default() -> (r: ArticleForm)
        ensures
            r.id == 0,
            r.title@ == Seq::<char>::empty(),
            r.author@ == Seq::<char>::empty(),
            r.cover is None,
            !r.published,
            r.rubrics@ == Seq::<Rubric>::empty(),
    {
        ArticleForm {
            id: 0,
            title: String::new(),
            author: String::new(),
            cover: None,
            published: false,
            rubrics: Vec::new(),
        }
    }
}

impl ArticleForm {
    /// The entry of a published article, from the columns of its row.
    pub fn published_entry(id: i32, title: String, author: String, cover: Option<String>) -> (r:
        ArticleForm)
        ensures
            r.id == id,
            r.title == title,
            r.author == author,
            r.cover == cover,
            r.published,
            r.rubrics@ == Seq::<Rubric>::empty(),
    {
        ArticleForm { id, title, author, cover, published: true, rubrics: Vec::new() }
    }

    /// The entry of any article, published or not, from the columns of its
    /// row.
    pub fn listed(
        id: i32,
        title: String,
        author: String,
        cover: Option<String>,
        published: bool,
    ) -> (r: ArticleForm)
        ensures
            r.id == id,
            r.title == title,
            r.author == author,
            r.cover == cover,
            r.published == published,
            r.rubrics@ == Seq::<Rubric>::empty(),
    {
        ArticleForm { id, title, author, cover, published, rubrics: Vec::new() }
    }

    /// The entry of a newly created article: a draft with the draft title,
    /// no author or cover, not published.
    pub fn draft(id: i32) -> (r: ArticleForm)
        ensures
            r.id == id,
            r.title@ == DRAFT_TITLE@,
            r.author@ == Seq::<char>::empty(),
            r.cover is None,
            !r.published,
            r.rubrics@ == Seq::<Rubric>::empty(),
    {
        ArticleForm {
            id,
            title: String::from_str(DRAFT_TITLE),
            author: String::new(),
            cover: None,
            published: false,
            rubrics: Vec::new(),
        }
    }

    /// The form for editing an article, with its title and author.
    pub fn for_editing(id: i32, title: String, author: String) -> (r: ArticleForm)
        ensures
            r.id == id,
            r.title == title,
            r.author == author,
            r.cover is None,
            !r.published,
            r.rubrics@ == Seq::<Rubric>::empty(),
    {
        ArticleForm { id, title, author, cover: None, published: false, rubrics: Vec::new() }
    }
}

/// An article with its contents.
#[derive(Debug)]
pub struct Article {
    pub id: i32,
    pub title: String,
    pub author: String,
    pub cover: Option<String>,
    pub contents: EditorJS,
}

/// The contents of an article as the editor saves them.
#[derive(Debug)]
pub struct EditorJS {
    pub version: String,
    pub time: i64,
    pub blocks: Vec<Block>,
}

/// One block of an article.
#[derive(Debug)]
pub struct Block {
    pub id: String,
    pub variant: BlockVariant,
}

/// The kinds of block the editor produces.
#[derive(Debug)]
pub enum BlockVariant {
    Paragraph(Paragraph),
    Heading(Heading),
    List(List),
    Quote(Quote),
    Image(Image),
    Separator(HashMap<i32, i32>),
}

#[derive(Debug)]
pub struct Paragraph {
    pub text: CleanString,
}

#[derive(Debug)]
pub struct Heading {
    pub text: CleanString,
    pub level: i32,
}

#[derive(Debug, Clone, Copy, PartialEq, Eq)]
pub enum ListType {
    Ordered,
    Unordered,
}

#[derive(Debug)]
pub struct List {
    pub style: ListType,
    pub items: Vec<CleanString>,
}

#[derive(Debug, Clone, Copy, PartialEq, Eq)]
pub enum Alignment {
    Left,
    Center,
}

#[derive(Debug)]
pub struct Quote {
    pub text: CleanString,
    pub caption: CleanString,
    pub alignment: Alignment,
}

#[derive(Debug)]
pub struct Image {
    pub url: String,
    pub caption: CleanString,
}

/// The id given to the placeholder block.
pub const EMPTY_BLOCK_ID: &'static str = "1234";

/// `b` is the placeholder block: an empty paragraph with the placeholder id.
pub open spec fn is_empty_block(b: Block) -> bool {
    &&& b.id@ == EMPTY_BLOCK_ID@
    &&& b.variant matches BlockVariant::Paragraph(p) && p.text@ == Seq::<char>::empty()
}

impl Block {
    /// The placeholder block: an empty paragraph.
    pub fn empty() -> (r: Block)
        ensures
            is_empty_block(r),
    {
        Block {
            id: String::from_str(EMPTY_BLOCK_ID),
            variant: BlockVariant::Paragraph(Paragraph { text: CleanString::empty() }),
        }
    }
}

/// `after` is `before` once it is sure to have a block: contents with
/// blocks are kept as they are, and empty contents get the placeholder
/// block.
pub open spec fn block_ensured(before: EditorJS, after: EditorJS) -> bool {
    if before.blocks@.len() > 0 {
        after == before
    } else {
        &&& after.blocks@.len() == 1
        &&& is_empty_block(after.blocks@[0])
        &&& after.version == before.version
        &&& after.time == before.time
    }
}

impl EditorJS {
    /// The editor cannot open contents without blocks, so contents saved
    /// without any get the placeholder block; other contents are kept.
    pub fn ensure_block(&mut self)
        ensures
            block_ensured(*old(self), *final(self)),
    {
        if self.blocks.len() == 0 {
            self.blocks.push(Block::empty());
        }
    }
}

/// Law: contents that hold any number of blocks but none are left exactly as
/// they are, and only empty contents change, by getting the single
/// placeholder block.
pub proof fn lemma_ensure_block_keeps_blocks(before: EditorJS, after: EditorJS)
    requires
        block_ensured(before, after),
    ensures
        before.blocks@.len() >= 1 ==> after == before,
        before.blocks@.len() == 0 ==> after.blocks@.len() == 1 && after.blocks@[0].id@ == "1234"@
            && (after.blocks@[0].variant matches BlockVariant::Paragraph(p) && p.text@.len() == 0),
{
    reveal_strlit("1234");
}

/// Law: saved contents always have a block, and making sure of it a second
/// time changes nothing.
pub proof fn lemma_ensure_block_settles(before: EditorJS, after: EditorJS, again: EditorJS)
    requires
        block_ensured(before, after),
        block_ensured(after, again),
    ensures
        after.blocks@.len() > 0,
        again == after,
{
}

} // verus!
