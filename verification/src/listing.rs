//! The listing: the rows of the table in which the collection is shown, and
//! the HTML fragment that holds them.

use vstd::prelude::*;

use crate::repo::{repo_views, UserRepo, UserRepoView};

verus! {

/// The opening tag of the fragment.
pub const CONTAINER_OPEN: &'static str = "<div class=\"repo-table-container\">";

/// The opening tag of a column heading.
pub const HEADER_OPEN: &'static str = "<div class=\"repo-table-header\">";

/// The opening tag of a cell.
pub const ITEM_OPEN: &'static str = "<div class=\"repo-table-item\">";

/// The closing tag of the fragment, of a heading and of a cell.
pub const DIV_CLOSE: &'static str = "</div>";

/// What a cell shows for a repository whose language is unknown.
pub const UNKNOWN_LANGUAGE: &'static str = "?";

/// One row of the listing: the five cells in the order of the columns.
#[derive(Debug, PartialEq, Eq)]
pub struct ListingRow {
    pub name: String,
    pub description: String,
    pub language: String,
    pub kind: String,
    pub link: String,
}

/// The mathematical content of a [`ListingRow`].
pub struct ListingRowView {
    pub name: Seq<char>,
    pub description: Seq<char>,
    pub language: Seq<char>,
    pub kind: Seq<char>,
    pub link: Seq<char>,
}

impl View for ListingRow {
    type V = ListingRowView;

    open spec fn view(&self) -> ListingRowView {
        ListingRowView {
            name: self.name@,
            description: self.description@,
            language: self.language@,
            kind: self.kind@,
            link: self.link@,
        }
    }
}

impl Clone for ListingRow {
    fn clone(&self) -> (r: Self)
        ensures
            r == *self,
    {
        ListingRow {
            name: self.name.clone(),
            description: self.description.clone(),
            language: self.language.clone(),
            kind: self.kind.clone(),
            link: self.link.clone(),
        }
    }
}

/// A column heading as HTML.
pub open spec fn header_cell(title: Seq<char>) -> Seq<char> {
    HEADER_OPEN@ + title + DIV_CLOSE@
}

/// A cell as HTML.
pub open spec fn item_cell(text: Seq<char>) -> Seq<char> {
    ITEM_OPEN@ + text + DIV_CLOSE@
}

/// The five column headings as HTML.
pub open spec fn header_html() -> Seq<char> {
    header_cell("Name"@) + header_cell("Description"@) + header_cell("Language"@) + header_cell(
        "Type"@,
    ) + header_cell("Github Url"@)
}

impl ListingRowView {
    /// The row as HTML: its five cells, one after the other.
    pub open spec fn html(self) -> Seq<char> {
        item_cell(self.name) + item_cell(self.description) + item_cell(self.language) + item_cell(
            self.kind,
        ) + item_cell(self.link)
    }
}

impl UserRepoView {
    /// Whether the repository gets a row: all but the private ones without a
    /// description, of which nothing could be shown.
    pub open spec fn listed(self) -> bool {
        !(self.private && self.description is None)
    }

    /// The row of the repository.
    pub open spec fn row(self) -> ListingRowView {
        ListingRowView {
            name: self.name,
            description: match self.description {
                Some(text) => text,
                None => Seq::empty(),
            },
            language: match self.language {
                Some(text) => text,
                None => UNKNOWN_LANGUAGE@,
            },
            kind: self.repo_type.label(),
            link: self.anchor(),
        }
    }
}

/// The views of a sequence of rows.
pub open spec fn row_views(rows: Seq<ListingRow>) -> Seq<ListingRowView> {
    rows.map_values(|row: ListingRow| row@)
}

/// The repositories that get a row, in their order.
pub open spec fn listed_entries(repos: Seq<UserRepoView>) -> Seq<UserRepoView> {
    repos.filter(|repo: UserRepoView| repo.listed())
}

/// The rows of the listing: one for each repository that gets one, in the
/// order of the collection.
pub open spec fn listing_rows(repos: Seq<UserRepoView>) -> Seq<ListingRowView> {
    listed_entries(repos).map_values(|repo: UserRepoView| repo.row())
}

/// The rows as HTML, one after the other.
pub open spec fn rows_html(rows: Seq<ListingRowView>) -> Seq<char> {
    rows.map_values(|row: ListingRowView| row.html()).flatten()
}

/// The whole fragment: the container, the headings, the rows and the closing
/// tags.
pub open spec fn listing_html(repos: Seq<UserRepoView>) -> Seq<char> {
    CONTAINER_OPEN@ + header_html() + rows_html(listing_rows(repos)) + DIV_CLOSE@ + DIV_CLOSE@
}

impl UserRepo {
    /// Whether the repository gets a row in the listing.
    pub fn is_listed(&self) -> (listed: bool)
        ensures
            listed == self@.listed(),
    {
        !(self.private() && self.description().is_none())
    }

    /// The row of the repository in the listing.
    pub fn listing_row(&self) -> (row: ListingRow)
        ensures
            row@ == self@.row(),
    {
        let description = match self.description() {
            Some(text) => text.clone(),
            None => String::new(),
        };
        let language = match self.language() {
            Some(text) => text.clone(),
            None => String::from_str(UNKNOWN_LANGUAGE),
        };
        ListingRow {
            name: self.name().clone(),
            description,
            language,
            kind: self.repo_type().to_string(),
            link: self.url_anchor(),
        }
    }
}

/// The rows of the listing of a collection.
pub fn listing(repos: &Vec<UserRepo>) -> (rows: Vec<ListingRow>)
    ensures
        row_views(rows@) == listing_rows(repo_views(repos@)),
{
    let ghost all = repo_views(repos@);
    let mut rows: Vec<ListingRow> = Vec::new();
    let mut i: usize = 0;
    proof {
        assert(all.take(0) == Seq::<UserRepoView>::empty());
        assert(listing_rows(all.take(0)) == Seq::<ListingRowView>::empty()) by {
            reveal(Seq::filter);
        }
        assert(row_views(rows@) == Seq::<ListingRowView>::empty());
    }
    while i < repos.len()
        invariant
            i <= repos.len(),
            all == repo_views(repos@),
            row_views(rows@) == listing_rows(all.take(i as int)),
        decreases repos.len() - i,
    {
        let repo = &repos[i];
        proof {
            assert(all.take(i + 1) == all.take(i as int).push(repo@));
            lemma_listing_rows_push(all.take(i as int), repo@);
        }
        if repo.is_listed() {
            let row = repo.listing_row();
            proof {
                assert(row_views(rows@.push(row)) == row_views(rows@).push(row@));
            }
            rows.push(row);
        }
        i += 1;
    }
    proof {
        assert(all.take(i as int) == all);
    }
    rows
}

/// Appends a column heading to a fragment.
fn push_header(out: &mut String, title: &str)
    ensures
        final(out)@ == old(out)@ + header_cell(title@),
{
    out.append(HEADER_OPEN);
    out.append(title);
    out.append(DIV_CLOSE);
    assert(out@ == old(out)@ + header_cell(title@));
}

/// Appends a cell to a fragment.
fn push_item(out: &mut String, text: &str)
    ensures
        final(out)@ == old(out)@ + item_cell(text@),
{
    out.append(ITEM_OPEN);
    out.append(text);
    out.append(DIV_CLOSE);
    assert(out@ == old(out)@ + item_cell(text@));
}

impl ListingRow {
    /// Appends the row, as HTML, to a fragment.
    pub fn write_html(&self, out: &mut String)
        ensures
            final(out)@ == old(out)@ + self@.html(),
    {
        push_item(out, self.name.as_str());
        push_item(out, self.description.as_str());
        push_item(out, self.language.as_str());
        push_item(out, self.kind.as_str());
        push_item(out, self.link.as_str());
        assert(out@ == old(out)@ + self@.html());
    }
}

/// The listing of a collection as a fragment of HTML: the container, one
/// heading for each column, the cells of each row, and the closing tags.
pub fn render_listing(repos: &Vec<UserRepo>) -> (html: String)
    ensures
        html@ == listing_html(repo_views(repos@)),
{
    let rows = listing(repos);
    let mut html = String::from_str(CONTAINER_OPEN);
    push_header(&mut html, "Name");
    push_header(&mut html, "Description");
    push_header(&mut html, "Language");
    push_header(&mut html, "Type");
    push_header(&mut html, "Github Url");
    assert(html@ == CONTAINER_OPEN@ + header_html());
    let ghost head = html@;
    let ghost all = row_views(rows@);
    let mut i: usize = 0;
    proof {
        assert(all.take(0) == Seq::<ListingRowView>::empty());
        assert(rows_html(all.take(0)) == Seq::<char>::empty());
    }
    while i < rows.len()
        invariant
            i <= rows.len(),
            all == row_views(rows@),
            html@ == head + rows_html(all.take(i as int)),
        decreases rows.len() - i,
    {
        proof {
            assert(all.take(i + 1) == all.take(i as int).push(rows[i as int]@));
            lemma_rows_html_push(all.take(i as int), rows[i as int]@);
        }
        rows[i].write_html(&mut html);
        i += 1;
    }
    proof {
        assert(all.take(i as int) == all);
    }
    html.append(DIV_CLOSE);
    html.append(DIV_CLOSE);
    html
}

/// The HTML of some rows with one more row at their end.
pub proof fn lemma_rows_html_push(rows: Seq<ListingRowView>, row: ListingRowView)
    ensures
        rows_html(rows.push(row)) == rows_html(rows) + row.html(),
{
    let html = |row: ListingRowView| row.html();
    assert(rows.push(row).map_values(html) == rows.map_values(html).push(row.html()));
    rows.map_values(html).lemma_flatten_push(row.html());
}

/// The listing filter: a repository is among the listed entries exactly if
/// it is in the collection and is not a private one without a description.
pub proof fn lemma_listed_iff(repos: Seq<UserRepoView>, repo: UserRepoView)
    ensures
        listed_entries(repos).contains(repo) <==> repos.contains(repo) && repo.listed(),
{
    let pred = |repo: UserRepoView| repo.listed();
    let kept = repos.filter(pred);
    if kept.contains(repo) {
        let j = choose|j: int| 0 <= j < kept.len() && kept[j] == repo;
        repos.lemma_filter_pred(pred, j);
        repos.lemma_filter_contains_rev(pred, repo);
    }
    if repos.contains(repo) && repo.listed() {
        let i = choose|i: int| 0 <= i < repos.len() && repos[i] == repo;
        repos.lemma_filter_contains(pred, i);
    }
}

/// The listing filter, entry by entry: the listed entries are those before
/// the entry, then the entry itself if and only if it is not a private one
/// without a description, then those after it. So every entry keeps its
/// place among the others, and none is shown twice.
pub proof fn lemma_listed_split(repos: Seq<UserRepoView>, i: int)
    requires
        0 <= i < repos.len(),
    ensures
        listed_entries(repos) == listed_entries(repos.take(i)) + (if repos[i].listed() {
            seq![repos[i]]
        } else {
            Seq::empty()
        }) + listed_entries(repos.skip(i + 1)),
{
    let pred = |repo: UserRepoView| repo.listed();
    let before = repos.take(i);
    let after = repos.skip(i + 1);
    assert(repos == before.push(repos[i]) + after);
    Seq::filter_distributes_over_add(before.push(repos[i]), after, pred);
    before.lemma_filter_push(repos[i], pred);
    if repos[i].listed() {
        assert(before.filter(pred).push(repos[i]) == before.filter(pred) + seq![repos[i]]);
    } else {
        assert(before.filter(pred) == before.filter(pred) + Seq::<UserRepoView>::empty());
    }
}

/// The rows of a collection with one more repository at its end.
pub proof fn lemma_listing_rows_push(repos: Seq<UserRepoView>, repo: UserRepoView)
    ensures
        listing_rows(repos.push(repo)) == if repo.listed() {
            listing_rows(repos).push(repo.row())
        } else {
            listing_rows(repos)
        },
{
    let pred = |repo: UserRepoView| repo.listed();
    repos.lemma_filter_push(repo, pred);
    if repo.listed() {
        assert(listed_entries(repos).push(repo).map_values(|repo: UserRepoView| repo.row())
            == listed_entries(repos).map_values(|repo: UserRepoView| repo.row()).push(repo.row()));
    }
}

} // verus!
