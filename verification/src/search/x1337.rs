//! 1337x: its search paths, and the torrents read from its result pages.
use vstd::prelude::*;
use crate::bytesize_calls::{call_parse_byte_size, parsed_byte_size};
use crate::chrono_calls::{parse_datetime_or_epoch, parsed_or_epoch};
use crate::regex_calls::{replace_every, replaced_all};
use crate::scraper_calls::{call_scrape, scraped, Element};
use crate::search::error::{scraping_error, Error, ErrorKind};
use crate::search::options::{Category, SearchOptions, SortColumn};
use crate::search::page::{field, field_of, first_node_text, first_text, ElementView};
use crate::search::piratebay::{number_or_zero, views};
use crate::search::provider::Provider;
use crate::search::round_robin::RoundRobin;
use crate::search::torrent::{Torrent, TorrentView};
use crate::text::{concat, join, join_strings, parse_usize, push_all, split_nth, split_on};
use crate::url_calls::{call_set_path, url_with_path};

verus! {

pub const X1337_API: &'static str = "https://1337x.to";

pub const TABLE_SELECTOR: &'static str = "tbody tr";
pub const NAME_SELECTOR: &'static str = ".name a:nth-child(2)";
pub const SEEDERS_SELECTOR: &'static str = ".seeds";
pub const LEECHERS_SELECTOR: &'static str = ".leeches";
pub const DATE_SELECTOR: &'static str = ".coll-date";
pub const SIZE_SELECTOR: &'static str = ".size";
pub const NO_RESULTS_SELECTOR: &'static str = ".box-info > .box-info-detail > p";
pub const ORDINAL_PATTERN: &'static str = "st|nd|rd|th";
pub const DATE_FORMAT: &'static str = "%b. %e '%y %R";

/// The field selectors of a result row, in the order the row reader expects them.
pub open spec fn row_fields() -> Seq<Seq<char>> {
    seq![NAME_SELECTOR@, SEEDERS_SELECTOR@, LEECHERS_SELECTOR@, DATE_SELECTOR@, SIZE_SELECTOR@]
}

/// The category names of 1337x.
pub open spec fn x1337_category(category: Category) -> Seq<char> {
    match category {
        Category::All => ""@,
        Category::Applications => "Apps"@,
        Category::Audio => "Music"@,
        Category::Video => "Movies"@,
        Category::Games => "Games"@,
        Category::Other => "Other"@,
    }
}

/// The sort names of 1337x.
pub open spec fn x1337_sort(column: SortColumn) -> Seq<char> {
    match column {
        SortColumn::Added => "time"@,
        SortColumn::Leechers => "leechers"@,
        SortColumn::Size => "size"@,
        SortColumn::Seeders => "seeders"@,
    }
}

/// `parts` with `p` added when `p` is not empty.
pub open spec fn keep_nonempty(parts: Seq<Seq<char>>, p: Seq<char>) -> Seq<Seq<char>> {
    if p.len() > 0 {
        parts.push(p)
    } else {
        parts
    }
}

/// The path of a search: the search kind, the query, the category (when one
/// is chosen), the sort, the order and the page, empty parts left out,
/// joined by `/`, with a final `/`.
pub open spec fn search_path(o: SearchOptions) -> Seq<char> {
    let has_category = o.spec_category() != Category::All;
    let p = keep_nonempty(
        Seq::empty(),
        if has_category { "sort-category-search"@ } else { "sort-search"@ },
    );
    let p = keep_nonempty(p, o.spec_query());
    let p = keep_nonempty(p, if has_category { x1337_category(o.spec_category()) } else { ""@ });
    let p = keep_nonempty(p, x1337_sort(o.spec_sort()));
    let p = keep_nonempty(p, o.spec_order().text());
    let p = keep_nonempty(p, "1"@);
    join(p, "/"@) + "/"@
}

/// The torrent that a result row describes; what cannot be read is left
/// empty or zero, and a date that does not read is the epoch.
pub open spec fn row_spec(row: Seq<Seq<ElementView>>) -> TorrentView {
    let names = field(row, 0);
    let date = replaced_all(ORDINAL_PATTERN@, first_node_text(field(row, 3)), ""@);
    let id = if names.len() > 0 && names[0].1 is Some {
        let parts = split_on(names[0].1->0, '/');
        if 2 < parts.len() { parts[2] } else { Seq::empty() }
    } else {
        Seq::empty()
    };
    TorrentView {
        added: parsed_or_epoch(date + " 00:00"@, DATE_FORMAT@) as i64,
        category: Seq::empty(),
        file_count: 0,
        id,
        info_hash: "unsupported"@,
        leechers: number_or_zero(first_node_text(field(row, 2)), usize::MAX as nat) as usize,
        name: first_node_text(names),
        seeders: number_or_zero(first_node_text(field(row, 1)), usize::MAX as nat) as usize,
        size: match parsed_byte_size(first_node_text(field(row, 4))) {
            Some(z) => z,
            None => 0,
        },
        provider: seq![Provider::X1337],
        magnet: "unsupported"@,
        movie_properties: None,
    }
}

/// The torrents of a page's rows; a page without rows is an error unless it
/// says that nothing was found.
pub open spec fn page_spec(rows: Seq<Seq<Seq<ElementView>>>, says_no_results: bool) -> Result<Seq<TorrentView>, Seq<char>> {
    if rows.len() == 0 && !says_no_results {
        Err("Could not find the table in the html response"@)
    } else {
        Ok(rows.map_values(|row: Seq<Seq<ElementView>>| row_spec(row)))
    }
}

fn push_nonempty(parts: &mut Vec<String>, p: &str)
    ensures
        final(parts).deep_view() == keep_nonempty(old(parts).deep_view(), p@),
{
    if !p.is_empty() {
        let ghost before = parts.deep_view();
        let ghost before_v = parts@;
        parts.push(p.to_owned());
        assert(parts.deep_view() =~= before.push(p@)) by {
            assert forall|k: int| 0 <= k < before.len() implies parts@[k] == before_v[k] by {}
        }
    } else {
        assert(parts.deep_view() =~= old(parts).deep_view());
    }
}

pub struct X1137 {}

impl X1137 {
    /// The mirrors of 1337x, to be taken in turn.
    pub fn round_robin() -> (r: RoundRobin)
        ensures
            r.spec_index() == 0,
            r.spec_urls() == seq![X1337_API@],
    {
        let mut urls = Vec::new();
        urls.push(X1337_API.to_owned());
        assert(urls.deep_view() =~= seq![X1337_API@]);
        RoundRobin::new(urls)
    }

    /// 1337x's name for a category (`""` for all).
    pub fn format_category(category: &Category) -> (r: &'static str)
        ensures
            r@ == x1337_category(*category),
    {
        match category {
            Category::All => "",
            Category::Applications => "Apps",
            Category::Audio => "Music",
            Category::Video => "Movies",
            Category::Games => "Games",
            Category::Other => "Other",
        }
    }

    /// 1337x's name for a sort column.
    pub fn format_sort(column: &SortColumn) -> (r: &'static str)
        ensures
            r@ == x1337_sort(*column),
    {
        match column {
            SortColumn::Added => "time",
            SortColumn::Leechers => "leechers",
            SortColumn::Size => "size",
            SortColumn::Seeders => "seeders",
        }
    }

    /// The path of a search.
    pub fn format_path(search_options: &SearchOptions) -> (r: String)
        ensures
            r@ == search_path(*search_options),
    {
        let has_category = *search_options.category() != Category::All;
        let mut parts: Vec<String> = Vec::new();
        assert(parts.deep_view() =~= Seq::<Seq<char>>::empty());
        push_nonempty(
            &mut parts,
            if has_category {
                "sort-category-search"
            } else {
                "sort-search"
            },
        );
        push_nonempty(&mut parts, search_options.query());
        push_nonempty(
            &mut parts,
            if has_category {
                X1137::format_category(search_options.category())
            } else {
                ""
            },
        );
        push_nonempty(&mut parts, X1137::format_sort(search_options.sort()));
        let order = search_options.order().to_string();
        push_nonempty(&mut parts, order.as_str());
        push_nonempty(&mut parts, "1");
        let mut path = join_strings(&parts, "/");
        push_all(&mut path, "/");
        path
    }

    /// The URL of a search on the next mirror.
    pub fn format_url(mirrors: &mut RoundRobin, search_options: &SearchOptions) -> (r: String)
        requires
            old(mirrors).spec_urls().len() > 0,
            old(mirrors).spec_index() < usize::MAX,
        ensures
            final(mirrors).spec_index() == old(mirrors).spec_index() + 1,
            final(mirrors).spec_urls() == old(mirrors).spec_urls(),
            r@ == url_with_path(
                old(mirrors).spec_urls()[(old(mirrors).spec_index() + 1) % old(mirrors).spec_urls().len() as int],
                search_path(*search_options),
            ),
    {
        let url = mirrors.get();
        let path = X1137::format_path(search_options);
        call_set_path(url.as_str(), path.as_str())
    }

    /// Reads one result row.
    pub fn torrent_from_row(row: &Vec<Vec<Element>>) -> (r: Torrent)
        ensures
            r@ == row_spec(row.deep_view()),
    {
        let empty: Vec<Element> = Vec::new();
        assert(empty.deep_view() =~= Seq::<ElementView>::empty());
        let names = match field_of(row, 0) {
            Some(s) => s,
            None => &empty,
        };
        let seeders = match field_of(row, 1) {
            Some(s) => s,
            None => &empty,
        };
        let leechers = match field_of(row, 2) {
            Some(s) => s,
            None => &empty,
        };
        let dates = match field_of(row, 3) {
            Some(s) => s,
            None => &empty,
        };
        let sizes = match field_of(row, 4) {
            Some(s) => s,
            None => &empty,
        };
        let date = first_text(dates);
        let date = replace_every(ORDINAL_PATTERN, date.as_str(), "");
        let date = concat(date.as_str(), " 00:00");
        let added = parse_datetime_or_epoch(date.as_str(), DATE_FORMAT);
        let name = first_text(names);
        let seeders_text = first_text(seeders);
        let seeders = match parse_usize(seeders_text.as_str()) {
            Some(v) => v,
            None => 0,
        };
        let leechers_text = first_text(leechers);
        let leechers = match parse_usize(leechers_text.as_str()) {
            Some(v) => v,
            None => 0,
        };
        let size_text = first_text(sizes);
        let size = match call_parse_byte_size(size_text.as_str()) {
            Some(z) => z,
            None => 0,
        };
        let id = if names.len() > 0 {
            match &names[0].1 {
                Some(href) => match split_nth(href.as_str(), '/', 2) {
                    Some(part) => part,
                    None => String::new(),
                },
                None => String::new(),
            }
        } else {
            String::new()
        };
        let mut provider = Vec::new();
        provider.push(Provider::X1337);
        Torrent {
            added,
            category: String::new(),
            file_count: 0,
            id,
            info_hash: "unsupported".to_owned(),
            leechers,
            name,
            seeders,
            size,
            provider,
            magnet: "unsupported".to_owned(),
            movie_properties: None,
        }
    }

    /// The torrents of the scraped rows; no rows at all is an error unless the
    /// page says that nothing was found.
    pub fn torrents_from_rows(rows: &Vec<Vec<Vec<Element>>>, says_no_results: bool) -> (r: Result<Vec<Torrent>, Error>)
        ensures
            match r {
                Ok(ts) => page_spec(rows.deep_view(), says_no_results) == Ok::<Seq<TorrentView>, Seq<char>>(views(ts@)),
                Err(e) => e.spec_kind() == ErrorKind::ScrapingError
                    && page_spec(rows.deep_view(), says_no_results) == Err::<Seq<TorrentView>, Seq<char>>(e.spec_message()),
            },
    {
        let ghost rv = rows.deep_view();
        let mut r: Vec<Torrent> = Vec::new();
        let mut i: usize = 0;
        while i < rows.len()
            invariant
                rv == rows.deep_view(),
                i <= rows@.len(),
                r@.len() == i,
                forall|k: int| 0 <= k < i ==> #[trigger] r@[k]@ == row_spec(rv[k]),
            decreases rows.len() - i,
        {
            assert(rv[i as int] == rows[i as int].deep_view());
            let t = X1137::torrent_from_row(&rows[i]);
            r.push(t);
            i = i + 1;
        }
        assert(views(r@) =~= rv.map_values(|row: Seq<Seq<ElementView>>| row_spec(row)));
        if r.len() == 0 && !says_no_results {
            return Err(scraping_error("Could not find the table in the html response"));
        }
        Ok(r)
    }

    /// The torrents of a 1337x result page.
    pub fn torrents_from_page(html: &str) -> (r: Result<Vec<Torrent>, Error>)
        ensures
            ({
                let rows = scraped(html@, TABLE_SELECTOR@, row_fields());
                let notice = scraped(html@, NO_RESULTS_SELECTOR@, Seq::empty()).len() > 0;
                match r {
                    Ok(ts) => page_spec(rows, notice) == Ok::<Seq<TorrentView>, Seq<char>>(views(ts@)),
                    Err(e) => e.spec_kind() == ErrorKind::ScrapingError
                        && page_spec(rows, notice) == Err::<Seq<TorrentView>, Seq<char>>(e.spec_message()),
                }
            }),
    {
        let mut fields: Vec<&str> = Vec::new();
        fields.push(NAME_SELECTOR);
        fields.push(SEEDERS_SELECTOR);
        fields.push(LEECHERS_SELECTOR);
        fields.push(DATE_SELECTOR);
        fields.push(SIZE_SELECTOR);
        assert(fields.deep_view() =~= row_fields());
        let rows = call_scrape(html, TABLE_SELECTOR, &fields);
        let no_fields: Vec<&str> = Vec::new();
        assert(no_fields.deep_view() =~= Seq::<Seq<char>>::empty());
        let notices = call_scrape(html, NO_RESULTS_SELECTOR, &no_fields);
        X1137::torrents_from_rows(&rows, notices.len() > 0)
    }
}

} // verus!
