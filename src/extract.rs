use crate::error::Error;
use vstd::prelude::*;

verus! {

/// One search hit taken from a result page.
pub struct ScholarResult {
    pub title: String,
    pub author: String,
    pub abs: String,
    pub link: String,
}

/// The text of a search hit.
pub struct ResultView {
    pub title: Seq<char>,
    pub author: Seq<char>,
    pub abs: Seq<char>,
    pub link: Seq<char>,
}

impl View for ScholarResult {
    type V = ResultView;

    open spec fn view(&self) -> ResultView {
        ResultView { title: self.title@, author: self.author@, abs: self.abs@, link: self.link@ }
    }
}

/// What was found in one result block: the text of its first title, abstract
/// and author line, and the destination of its first link, each absent where
/// the block has no such element.
pub struct BlockFields {
    pub title: Option<String>,
    pub link: Option<String>,
    pub abs: Option<String>,
    pub author: Option<String>,
}

/// An optional string as optional text.
pub open spec fn opt_view(o: Option<String>) -> Option<Seq<char>> {
    match o {
        Some(s) => Some(s@),
        None => None,
    }
}

/// The fields of a result block as text.
pub struct BlockView {
    pub title: Option<Seq<char>>,
    pub link: Option<Seq<char>>,
    pub abs: Option<Seq<char>>,
    pub author: Option<Seq<char>>,
}

impl View for BlockFields {
    type V = BlockView;

    open spec fn view(&self) -> BlockView {
        BlockView {
            title: opt_view(self.title),
            link: opt_view(self.link),
            abs: opt_view(self.abs),
            author: opt_view(self.author),
        }
    }
}

/// The record of a block that has all four fields; `None` for any other.
pub open spec fn block_record(b: BlockView) -> Option<ResultView> {
    if b.title is Some && b.link is Some && b.abs is Some && b.author is Some {
        Some(
            ResultView {
                title: b.title->0,
                author: b.author->0,
                abs: b.abs->0,
                link: b.link->0,
            },
        )
    } else {
        None
    }
}

/// The records of the complete blocks, in the blocks' order; incomplete
/// blocks are left out.
pub open spec fn complete_records(bs: Seq<BlockView>) -> Seq<ResultView>
    decreases bs.len(),
{
    if bs.len() == 0 {
        Seq::empty()
    } else {
        let earlier = complete_records(bs.drop_last());
        match block_record(bs.last()) {
            Some(r) => earlier.push(r),
            None => earlier,
        }
    }
}

pub open spec fn blocks_view(bs: Seq<BlockFields>) -> Seq<BlockView> {
    bs.map_values(|b: BlockFields| b@)
}

pub open spec fn results_view(rs: Seq<ScholarResult>) -> Seq<ResultView> {
    rs.map_values(|r: ScholarResult| r@)
}

/// Whether `scraper::Selector::parse` accepts the selector text.
pub uninterp spec fn selector_parses(selector: Seq<char>) -> bool;

/// The number of elements that `block` selects in the document that
/// `scraper::Html::parse_document` builds from `document`.
pub uninterp spec fn block_count(document: Seq<char>, block: Seq<char>) -> nat;

/// For each element that `block` selects in the document parsed from
/// `document`, in the order that `Html::select` yields them: the
/// concatenated text, in tree order, of the first descendant
/// that `field` selects, or `None` where there is none.
pub uninterp spec fn first_texts(document: Seq<char>, block: Seq<char>, field: Seq<char>) -> Seq<
    Option<Seq<char>>,
>;

/// For each element that `block` selects in the document parsed from
/// `document`, in the order that `Html::select` yields them: the value of
/// the attribute `attr` on the first descendant that `field` selects, or
/// `None` where there is no such element or it lacks the attribute.
pub uninterp spec fn first_attrs(
    document: Seq<char>,
    block: Seq<char>,
    field: Seq<char>,
    attr: Seq<char>,
) -> Seq<Option<Seq<char>>>;

/// Relies on `scraper::Selector::parse`, to tell whether a selector is valid.
#[verifier::external_body]
fn selector_is_valid(selector: &str) -> (r: bool)
    ensures
        r == selector_parses(selector@),
{
    scraper::Selector::parse(selector).is_ok()
}

/// Relies on `scraper::Html::parse_document`, `Html::select`,
/// `ElementRef::select` and `ElementRef::text`: the text of the first `field`
/// element within each `block` element of the document.
#[verifier::external_body]
fn select_first_texts(document: &str, block: &str, field: &str) -> (r: Vec<Option<String>>)
    requires
        selector_parses(block@),
        selector_parses(field@),
    ensures
        r@.len() == block_count(document@, block@),
        r@.len() == first_texts(document@, block@, field@).len(),
        forall|i: int|
            0 <= i < r@.len() ==> #[trigger] opt_view(r@[i]) == first_texts(
                document@,
                block@,
                field@,
            )[i],
{
    let html = scraper::Html::parse_document(document);
    let block = scraper::Selector::parse(block).unwrap();
    let field = scraper::Selector::parse(field).unwrap();
    html.select(&block).map(|b| b.select(&field).next().map(|e| e.text().collect())).collect()
}

/// Relies on `scraper::Html::parse_document`, `Html::select`,
/// `ElementRef::select` and `ElementRef::attr`: the attribute `attr` of the
/// first `field` element within each `block` element of the document.
#[verifier::external_body]
fn select_first_attrs(document: &str, block: &str, field: &str, attr: &str) -> (r: Vec<
    Option<String>,
>)
    requires
        selector_parses(block@),
        selector_parses(field@),
    ensures
        r@.len() == block_count(document@, block@),
        r@.len() == first_attrs(document@, block@, field@, attr@).len(),
        forall|i: int|
            0 <= i < r@.len() ==> #[trigger] opt_view(r@[i]) == first_attrs(
                document@,
                block@,
                field@,
                attr@,
            )[i],
{
    let html = scraper::Html::parse_document(document);
    let block = scraper::Selector::parse(block).unwrap();
    let field = scraper::Selector::parse(field).unwrap();
    html.select(&block).map(|b| b.select(&field).next().and_then(|e| e.attr(attr)).map(
        String::from,
    )).collect()
}

/// The selectors of a result page: a result block, and within it the title,
/// the abstract snippet, the author line and a link.
pub open spec fn selectors_valid() -> bool {
    &&& selector_parses(".gs_ri"@)
    &&& selector_parses(".gs_rt"@)
    &&& selector_parses(".gs_rs"@)
    &&& selector_parses(".gs_a"@)
    &&& selector_parses("a"@)
}

/// The blocks of a result page, with the fields found in each.
pub open spec fn page_blocks(document: Seq<char>) -> Seq<BlockView> {
    Seq::new(
        block_count(document, ".gs_ri"@),
        |i: int|
            BlockView {
                title: first_texts(document, ".gs_ri"@, ".gs_rt"@)[i],
                link: first_attrs(document, ".gs_ri"@, "a"@, "href"@)[i],
                abs: first_texts(document, ".gs_ri"@, ".gs_rs"@)[i],
                author: first_texts(document, ".gs_ri"@, ".gs_a"@)[i],
            },
    )
}

/// What extraction gives for a page: the records of its complete blocks, or
/// `None` where a selector is refused.
pub open spec fn extraction(document: Seq<char>) -> Option<Seq<ResultView>> {
    if selectors_valid() {
        Some(complete_records(page_blocks(document)))
    } else {
        None
    }
}

/// The records of two runs of blocks, one after the other, are the records
/// of the first run followed by those of the second.
pub proof fn lemma_complete_records_concat(a: Seq<BlockView>, b: Seq<BlockView>)
    ensures
        complete_records(a + b) == complete_records(a) + complete_records(b),
    decreases b.len(),
{
    if b.len() == 0 {
        assert(a + b =~= a);
        assert(complete_records(a) + complete_records(b) =~= complete_records(a));
    } else {
        lemma_complete_records_concat(a, b.drop_last());
        assert((a + b).drop_last() =~= a + b.drop_last());
        assert((a + b).last() == b.last());
        match block_record(b.last()) {
            Some(r) => {
                assert((complete_records(a) + complete_records(b.drop_last())).push(r)
                    =~= complete_records(a) + complete_records(b.drop_last()).push(r));
            },
            None => {},
        }
    }
}

/// A block that lacks any of its four fields leaves no record and does not
/// disturb the records around it; a block that has all four gives exactly
/// one record, made of its fields, in its place.
pub proof fn lemma_block_kept_or_skipped(
    before: Seq<BlockView>,
    block: BlockView,
    after: Seq<BlockView>,
)
    ensures
        !(block.title is Some && block.link is Some && block.abs is Some
            && block.author is Some) ==> complete_records(before + seq![block] + after)
            == complete_records(before) + complete_records(after),
        (block.title is Some && block.link is Some && block.abs is Some && block.author is Some)
            ==> complete_records(before + seq![block] + after) == complete_records(before)
            + seq![
            ResultView {
                title: block.title->0,
                author: block.author->0,
                abs: block.abs->0,
                link: block.link->0,
            },
        ] + complete_records(after),
{
    lemma_complete_records_concat(before + seq![block], after);
    lemma_complete_records_concat(before, seq![block]);
    assert(seq![block].drop_last() =~= Seq::<BlockView>::empty());
    assert(seq![block].last() == block);
    assert(complete_records(Seq::<BlockView>::empty()) == Seq::<ResultView>::empty());
    assert(complete_records(seq![block].drop_last()) == Seq::<ResultView>::empty());
    assert(complete_records(seq![block]) == match block_record(block) {
        Some(r) => Seq::<ResultView>::empty().push(r),
        None => Seq::<ResultView>::empty(),
    });
    assert(complete_records(before) + Seq::<ResultView>::empty() =~= complete_records(before));
    assert(Seq::<ResultView>::empty().push(block_record(block)->0) =~= seq![block_record(block)->0]);
}

/// Extraction depends on the page text alone: the same text always gives the
/// same records, in the same order.
pub proof fn lemma_extraction_repeatable(first: Seq<char>, second: Seq<char>)
    requires
        first == second,
    ensures
        extraction(first) == extraction(second),
{
}

/// A page with no result block gives no records, and no error.
pub proof fn lemma_no_blocks_no_records(document: Seq<char>)
    requires
        selectors_valid(),
        block_count(document, ".gs_ri"@) == 0,
    ensures
        extraction(document) == Some(Seq::<ResultView>::empty()),
{
    assert(page_blocks(document).len() == 0);
}

fn clone_field(o: &Option<String>) -> (r: Option<String>)
    ensures
        opt_view(r) == opt_view(*o),
{
    match o {
        Some(s) => Some(s.clone()),
        None => None,
    }
}

/// The records of the blocks that have all four fields, in order; a block
/// that lacks any of them is skipped.
pub fn collect_results(blocks: &Vec<BlockFields>) -> (r: Vec<ScholarResult>)
    ensures
        results_view(r@) == complete_records(blocks_view(blocks@)),
        r@.len() == complete_records(blocks_view(blocks@)).len(),
        blocks@.len() == 0 ==> r@.len() == 0,
{
    let mut out: Vec<ScholarResult> = Vec::new();
    let mut i: usize = 0;
    while i < blocks.len()
        invariant
            i <= blocks@.len(),
            results_view(out@) == complete_records(blocks_view(blocks@).take(i as int)),
        decreases blocks@.len() - i,
    {
        let ghost before = out@;
        let b = &blocks[i];
        match (&b.title, &b.link, &b.abs, &b.author) {
            (Some(t), Some(l), Some(a), Some(au)) => {
                out.push(
                    ScholarResult {
                        title: t.clone(),
                        author: au.clone(),
                        abs: a.clone(),
                        link: l.clone(),
                    },
                );
                assert(results_view(out@) =~= results_view(before).push(out@.last()@));
            },
            _ => {},
        }
        let ghost bv = blocks_view(blocks@);
        assert(bv.take(i + 1).drop_last() =~= bv.take(i as int));
        assert(bv.take(i + 1).last() == blocks@[i as int]@);
        i = i + 1;
    }
    assert(blocks_view(blocks@).take(i as int) =~= blocks_view(blocks@));
    assert(results_view(out@).len() == out@.len());
    out
}

/// The search hits of a result page, in the order of their blocks. A result block that
/// lacks its title, abstract snippet, author line or link is skipped; only a
/// refused selector is an error.
pub fn scrape_serialize(document: String) -> (r: Result<Vec<ScholarResult>, Error>)
    ensures
        match extraction(document@) {
            Some(records) => r is Ok && results_view(r->Ok_0@) == records,
            None => r matches Err(Error::ParseError),
        },
{
    if !(selector_is_valid(".gs_ri") && selector_is_valid(".gs_rt") && selector_is_valid(
        ".gs_rs",
    ) && selector_is_valid(".gs_a") && selector_is_valid("a")) {
        return Err(Error::ParseError);
    }
    let titles = select_first_texts(document.as_str(), ".gs_ri", ".gs_rt");
    let links = select_first_attrs(document.as_str(), ".gs_ri", "a", "href");
    let abstracts = select_first_texts(document.as_str(), ".gs_ri", ".gs_rs");
    let authors = select_first_texts(document.as_str(), ".gs_ri", ".gs_a");
    let ghost page = page_blocks(document@);
    let mut blocks: Vec<BlockFields> = Vec::new();
    let mut i: usize = 0;
    while i < titles.len()
        invariant
            i <= titles@.len(),
            titles@.len() == page.len(),
            links@.len() == page.len(),
            abstracts@.len() == page.len(),
            authors@.len() == page.len(),
            forall|k: int| 0 <= k < titles@.len() ==> #[trigger] opt_view(titles@[k]) == page[k].title,
            forall|k: int| 0 <= k < links@.len() ==> #[trigger] opt_view(links@[k]) == page[k].link,
            forall|k: int| 0 <= k < abstracts@.len() ==> #[trigger] opt_view(abstracts@[k]) == page[k].abs,
            forall|k: int| 0 <= k < authors@.len() ==> #[trigger] opt_view(authors@[k]) == page[k].author,
            blocks_view(blocks@) == page.take(i as int),
        decreases titles@.len() - i,
    {
        let fields = BlockFields {
            title: clone_field(&titles[i]),
            link: clone_field(&links[i]),
            abs: clone_field(&abstracts[i]),
            author: clone_field(&authors[i]),
        };
        assert(opt_view(titles@[i as int]) == page[i as int].title);
        assert(opt_view(links@[i as int]) == page[i as int].link);
        assert(opt_view(abstracts@[i as int]) == page[i as int].abs);
        assert(opt_view(authors@[i as int]) == page[i as int].author);
        assert(fields@ == page[i as int]);
        let ghost before = blocks@;
        blocks.push(fields);
        assert(blocks_view(blocks@) =~= blocks_view(before).push(fields@));
        assert(blocks_view(blocks@) =~= page.take(i + 1));
        i = i + 1;
    }
    assert(page.take(i as int) =~= page);
    Ok(collect_results(&blocks))
}

} // verus!
