//! BitSearch: its query URLs, its mirrors, and the torrents read from its result pages.
use vstd::prelude::*;
use crate::bytesize_calls::{call_parse_byte_size, parsed_byte_size};
use crate::chrono_calls::{parse_datetime_or_epoch, parsed_or_epoch};
use crate::regex_calls::{find_first, first_match};
use crate::scraper_calls::{call_scrape, scraped, Element};
use crate::search::error::{scraping_error, Error, ErrorKind};
use crate::search::options::{Category, MovieOptions, SearchOptions, SortColumn};
use crate::search::page::{all_text, element_text, field, field_of, nth_text, text_at, ElementView};
use crate::search::piratebay::{properties_from_name, properties_of_name, views};
use crate::search::provider::Provider;
use crate::search::round_robin::RoundRobin;
use crate::search::title::{is_title_match, title_matches};
use crate::search::torrent::{Torrent, TorrentView};
use crate::text::{all_digits, concat, contains_char, digit_value, digits_value, parse_unsigned, parse_usize, replace, str_replace};
use crate::url_calls::{call_append_pair, url_with_pair};

verus! {

pub const BITSEARCH_API_MAIN: &'static str = "https://bitsearch.to/search";
pub const BITSEARCH_API_MIRROR: &'static str = "https://solidtorrents.to/search";

pub const ROW_SELECTOR: &'static str = ".search-result";
pub const STATS_SELECTOR: &'static str = ".stats div";
pub const MAGNET_SELECTOR: &'static str = ".dl-magnet";
pub const NAME_SELECTOR: &'static str = "h5 a";
pub const CATEGORY_SELECTOR: &'static str = ".category";
pub const INFO_HASH_PATTERN: &'static str = r"urn:btih:([A-F\d]+)";
pub const DATE_FORMAT: &'static str = "%b %d, %Y %R";

/// The field selectors of a result row, in the order the row reader expects them.
pub open spec fn row_fields() -> Seq<Seq<char>> {
    seq![STATS_SELECTOR@, MAGNET_SELECTOR@, NAME_SELECTOR@, CATEGORY_SELECTOR@]
}

/// The category codes of BitSearch.
pub open spec fn bitsearch_category(category: Category) -> Seq<char> {
    match category {
        Category::All => ""@,
        Category::Applications => "5"@,
        Category::Audio => "7"@,
        Category::Video => "1"@,
        Category::Games => "6"@,
        Category::Other => ""@,
    }
}

/// The sort names of BitSearch.
pub open spec fn bitsearch_sort(column: SortColumn) -> Seq<char> {
    match column {
        SortColumn::Added => "date"@,
        SortColumn::Leechers => "leechers"@,
        SortColumn::Size => "size"@,
        SortColumn::Seeders => "seeders"@,
    }
}

/// A count written with a `K`, `M` or `B` suffix, as digits: the suffix
/// becomes zeros and the decimal point is dropped (`1.2K` is `1200`).
pub open spec fn expanded(n: Seq<char>) -> Seq<char> {
    if n.contains('K') {
        replace(replace(n, seq!['K'], "00"@), seq!['.'], ""@)
    } else if n.contains('M') {
        replace(replace(n, seq!['M'], "00000"@), seq!['.'], ""@)
    } else if n.contains('B') {
        replace(replace(n, seq!['B'], "00000000"@), seq!['.'], ""@)
    } else {
        n
    }
}

/// What a result row gives: `Ok(None)` for a row without a size, which is
/// skipped, a torrent, or the message of the first thing missing from it.
pub open spec fn row_spec(row: Seq<Seq<ElementView>>) -> Result<Option<TorrentView>, Seq<char>> {
    let stats = field(row, 0);
    let magnets = field(row, 1);
    let names = field(row, 2);
    let size = nth_text(stats, 1);
    let seeders = expanded(nth_text(stats, 2));
    let leechers = expanded(nth_text(stats, 3));
    let added = parsed_or_epoch(nth_text(stats, 4) + " 00:00"@, DATE_FORMAT@);
    if size.len() == 0 {
        Ok(None)
    } else if magnets.len() == 0 {
        Err("Could not find the magnet link"@)
    } else if magnets[0].1 is None {
        Err("Magnet link does not have an href attribute"@)
    } else {
        let magnet = replace(magnets[0].1->0, "dn=%5BBitsearch.to%5D+"@, "dn="@);
        match first_match(INFO_HASH_PATTERN@, magnet) {
            None => Err("Could not find the info hash in the magnet link"@),
            Some(m) => {
                let info_hash = replace(m, "urn:btih:"@, ""@);
                if names.len() == 0 {
                    Err("Could not find the name in the html response"@)
                } else {
                    let name = all_text(names[0]);
                    match parse_unsigned(leechers, usize::MAX as nat) {
                        None => Err("Leechers is not a number"@),
                        Some(l) => match parse_unsigned(seeders, usize::MAX as nat) {
                            None => Err("Seeders is not a number"@),
                            Some(s) => match parsed_byte_size(size) {
                                None => Err("Size is not a number, or cannot be parsed by ByteSize"@),
                                Some(z) => Ok(
                                    Some(
                                        TorrentView {
                                            added: added as i64,
                                            category: nth_text(field(row, 3), 0),
                                            file_count: 0,
                                            id: info_hash,
                                            info_hash,
                                            leechers: l as usize,
                                            name,
                                            seeders: s as usize,
                                            size: z,
                                            provider: seq![Provider::BitSearch],
                                            magnet,
                                            movie_properties: Some(properties_from_name(""@, name)),
                                        },
                                    ),
                                ),
                            },
                        },
                    }
                }
            },
        }
    }
}

/// The torrents of the first `i` rows, or the message of the first row that fails.
pub open spec fn rows_prefix(rows: Seq<Seq<Seq<ElementView>>>, i: int) -> Result<Seq<TorrentView>, Seq<char>>
    decreases i,
{
    if i <= 0 {
        Ok(Seq::empty())
    } else {
        match rows_prefix(rows, i - 1) {
            Err(m) => Err(m),
            Ok(ts) => match row_spec(rows[i - 1]) {
                Err(m) => Err(m),
                Ok(None) => Ok(ts),
                Ok(Some(t)) => Ok(ts.push(t)),
            },
        }
    }
}

proof fn lemma_rows_error_stays(rows: Seq<Seq<Seq<ElementView>>>, i: int, j: int, m: Seq<char>)
    requires
        0 <= i <= j,
        rows_prefix(rows, i) == Err::<Seq<TorrentView>, Seq<char>>(m),
    ensures
        rows_prefix(rows, j) == Err::<Seq<TorrentView>, Seq<char>>(m),
    decreases j - i,
{
    if i < j {
        lemma_rows_error_stays(rows, i, j - 1, m);
    }
}

/// Replacing a character that a text does not hold leaves the text as it is.
proof fn lemma_replace_absent(s: Seq<char>, c: char, to: Seq<char>)
    requires
        !s.contains(c),
    ensures
        replace(s, seq![c], to) == s,
    decreases s.len(),
{
    if s.len() > 0 {
        assert(s.subrange(0, 1) != seq![c]) by {
            assert(s.subrange(0, 1)[0] == s[0]);
            assert(s.contains(s[0]));
        }
        assert(!s.drop_first().contains(c)) by {
            if s.drop_first().contains(c) {
                let i = choose|i: int| 0 <= i < s.drop_first().len() && s.drop_first()[i] == c;
                assert(s[i + 1] == c);
            }
        }
        lemma_replace_absent(s.drop_first(), c, to);
        assert(seq![s[0]] + s.drop_first() == s);
    }
}

/// Replacing a character works piece by piece.
proof fn lemma_replace_concat(x: Seq<char>, y: Seq<char>, c: char, to: Seq<char>)
    ensures
        replace(x + y, seq![c], to) == replace(x, seq![c], to) + replace(y, seq![c], to),
    decreases x.len(),
{
    if x.len() == 0 {
        assert(x + y == y);
        assert(replace(x, seq![c], to) == Seq::<char>::empty());
    } else {
        let xy = x + y;
        assert(xy.subrange(0, 1) == x.subrange(0, 1));
        assert(xy.skip(1) == x.skip(1) + y);
        assert(xy.drop_first() == x.drop_first() + y);
        assert(x.skip(1) == x.drop_first());
        lemma_replace_concat(x.drop_first(), y, c, to);
    }
}

/// The value of digits followed by zeros: each zero multiplies it by ten.
proof fn lemma_digits_with_zeros(d: Seq<char>, zeros: nat)
    ensures
        digits_value(d + zero_run(zeros)) == digits_value(d) * pow10(zeros),
    decreases zeros,
{
    if zeros > 0 {
        let z = zero_run(zeros);
        let z1 = zero_run((zeros - 1) as nat);
        assert(d + z == (d + z1).push('0'));
        assert((d + z).drop_last() == d + z1);
        assert((d + z).last() == '0');
        assert(digit_value('0') == 0);
        assert(digits_value(d + z) == digits_value(d + z1) * 10 + digit_value('0'));
        lemma_digits_with_zeros(d, (zeros - 1) as nat);
        assert(digits_value(d) * pow10((zeros - 1) as nat) * 10 == digits_value(d) * pow10(zeros))
            by (nonlinear_arith)
            requires
                pow10(zeros) == pow10((zeros - 1) as nat) * 10,
        ;
        let x = digits_value(d + z1);
        let y = digits_value(d) * pow10((zeros - 1) as nat);
        assert(x == y);
        assert(x * 10 == y * 10);
        assert(digits_value(d + z) == x * 10);
        assert(digits_value(d + z) == digits_value(d) * pow10(zeros));
    } else {
        assert(d + zero_run(0) == d);
        assert(pow10(0) == 1);
        assert(digits_value(d + zero_run(zeros)) == digits_value(d) * pow10(zeros));
    }
}

/// `n` zero digits.
pub open spec fn zero_run(n: nat) -> Seq<char> {
    Seq::new(n, |i: int| '0')
}

/// Ten to the power `n`.
pub open spec fn pow10(n: nat) -> nat
    decreases n,
{
    if n == 0 {
        1
    } else {
        pow10((n - 1) as nat) * 10
    }
}

/// The suffixes that a count may carry, with the power of ten that each stands
/// for once its decimal point is dropped: `K` adds two zeros, `M` five, `B` eight.
pub open spec fn suffix_zeros(u: char) -> nat {
    if u == 'K' {
        2
    } else if u == 'M' {
        5
    } else {
        8
    }
}

/// Digits hold no character that is not a digit.
proof fn lemma_digits_lack(s: Seq<char>, c: char)
    requires
        all_digits(s),
        !('0' <= c && c <= '9'),
    ensures
        !s.contains(c),
{
    if s.contains(c) {
        let i = choose|i: int| 0 <= i < s.len() && s[i] == c;
        assert(crate::text::is_digit(s[i]));
    }
}

/// Replacing the last character, which occurs nowhere else.
proof fn lemma_replace_last(body: Seq<char>, u: char, zs: Seq<char>)
    requires
        !body.contains(u),
    ensures
        replace(body + seq![u], seq![u], zs) == body + zs,
{
    lemma_replace_concat(body, seq![u], u, zs);
    lemma_replace_absent(body, u, zs);
    assert(seq![u].subrange(0, 1) == seq![u]);
    assert(seq![u].skip(1) == Seq::<char>::empty());
    assert(replace(Seq::<char>::empty(), seq![u], zs) == Seq::<char>::empty());
    assert(zs + Seq::<char>::empty() == zs);
}

/// Dropping the decimal point of digits, an optional point, digits and zeros.
proof fn lemma_drop_point(a: Seq<char>, dot: Seq<char>, b: Seq<char>, z: Seq<char>)
    requires
        all_digits(a),
        all_digits(b),
        all_digits(z),
        dot == Seq::<char>::empty() || dot == seq!['.'],
    ensures
        replace(a + dot + b + z, seq!['.'], ""@) == a + b + z,
{
    reveal_strlit("");
    assert(a + dot + b + z == a + (dot + (b + z)));
    lemma_replace_concat(a, dot + (b + z), '.', ""@);
    lemma_replace_concat(dot, b + z, '.', ""@);
    lemma_replace_concat(b, z, '.', ""@);
    lemma_digits_lack(a, '.');
    lemma_digits_lack(b, '.');
    lemma_digits_lack(z, '.');
    lemma_replace_absent(a, '.', ""@);
    lemma_replace_absent(b, '.', ""@);
    lemma_replace_absent(z, '.', ""@);
    assert(replace(Seq::<char>::empty(), seq!['.'], ""@) == Seq::<char>::empty());
    assert(replace(dot, seq!['.'], ""@) == Seq::<char>::empty()) by {
        if dot.len() > 0 {
            assert(dot.subrange(0, 1) == seq!['.']);
            assert(dot.skip(1) == Seq::<char>::empty());
        }
    }
    assert(a + (b + z) == a + b + z);
}

/// A count written as digits, an optional decimal point, digits, and a `K`,
/// `M` or `B` suffix expands to its digits followed by the suffix's zeros.
proof fn lemma_expand_suffix(a: Seq<char>, dot: Seq<char>, b: Seq<char>, u: char)
    requires
        all_digits(a),
        all_digits(b),
        dot == Seq::<char>::empty() || dot == seq!['.'],
        u == 'K' || u == 'M' || u == 'B',
    ensures
        expanded(a + dot + b + seq![u]) == a + b + zero_run(suffix_zeros(u)),
{
    reveal_strlit("00");
    reveal_strlit("00000");
    reveal_strlit("00000000");
    let body = a + dot + b;
    let n = body + seq![u];
    let z = zero_run(suffix_zeros(u));
    assert(a + dot + b + seq![u] == n);
    assert(all_digits(z));
    lemma_digits_lack(a, u);
    lemma_digits_lack(b, u);
    assert(!body.contains(u)) by {
        if body.contains(u) {
            let i = choose|i: int| 0 <= i < body.len() && body[i] == u;
            if i < a.len() {
                assert(a[i] == u);
                assert(a.contains(u));
            } else if i < a.len() + dot.len() {
                assert(dot[i - a.len()] == u);
            } else {
                assert(b[i - a.len() - dot.len()] == u);
                assert(b.contains(u));
            }
        }
    }
    assert(n[n.len() - 1] == u);
    if u == 'K' {
        assert(n.contains('K'));
        assert("00"@ == z);
        lemma_replace_last(body, u, z);
    } else {
        assert(!n.contains('K')) by {
            if n.contains('K') {
                let i = choose|i: int| 0 <= i < n.len() && n[i] == 'K';
                if i < a.len() {
                    assert(a[i] == 'K');
                } else if i < a.len() + dot.len() {
                    assert(dot[i - a.len()] == 'K');
                } else if i < body.len() {
                    assert(b[i - a.len() - dot.len()] == 'K');
                }
            }
        }
        if u == 'M' {
            assert(n.contains('M'));
            assert("00000"@ == z);
            lemma_replace_last(body, u, z);
        } else {
            assert(!n.contains('M')) by {
                if n.contains('M') {
                    let i = choose|i: int| 0 <= i < n.len() && n[i] == 'M';
                    if i < a.len() {
                        assert(a[i] == 'M');
                    } else if i < a.len() + dot.len() {
                        assert(dot[i - a.len()] == 'M');
                    } else if i < body.len() {
                        assert(b[i - a.len() - dot.len()] == 'M');
                    }
                }
            }
            assert(n.contains('B'));
            assert("00000000"@ == z);
            lemma_replace_last(body, u, z);
        }
    }
    lemma_drop_point(a, dot, b, z);
}

/// Digits followed by zeros read as their number times a power of ten.
proof fn lemma_parse_with_zeros(d: Seq<char>, k: nat)
    requires
        all_digits(d),
        k > 0,
        digits_value(d) * pow10(k) <= usize::MAX,
    ensures
        parse_unsigned(d + zero_run(k), usize::MAX as nat) == Some(digits_value(d) * pow10(k)),
{
    let e = d + zero_run(k);
    assert(all_digits(e)) by {
        assert forall|i: int| 0 <= i < e.len() implies crate::text::is_digit(#[trigger] e[i]) by {
            if i < d.len() {
                assert(e[i] == d[i]);
            } else {
                assert(e[i] == zero_run(k)[i - d.len()]);
            }
        }
    }
    assert(e[0] != '+') by {
        assert(crate::text::is_digit(e[0]));
    }
    lemma_digits_with_zeros(d, k);
}

/// A count written as digits, an optional decimal point, digits, and a `K`,
/// `M` or `B` suffix is the number of its digits followed by the suffix's
/// zeros: `1.5K` is 1500, `2K` is 200, `1.2M` is 1200000.
proof fn lemma_count_with_suffix(a: Seq<char>, dot: Seq<char>, b: Seq<char>, u: char)
    requires
        all_digits(a),
        all_digits(b),
        dot == Seq::<char>::empty() || dot == seq!['.'],
        u == 'K' || u == 'M' || u == 'B',
        digits_value(a + b) * pow10(suffix_zeros(u)) <= usize::MAX,
    ensures
        parse_unsigned(expanded(a + dot + b + seq![u]), usize::MAX as nat)
            == Some(digits_value(a + b) * pow10(suffix_zeros(u))),
{
    lemma_expand_suffix(a, dot, b, u);
    assert(all_digits(a + b)) by {
        assert forall|i: int| 0 <= i < (a + b).len() implies crate::text::is_digit(#[trigger] (a + b)[i]) by {
            if i < a.len() {
                assert((a + b)[i] == a[i]);
            } else {
                assert((a + b)[i] == b[i - a.len()]);
            }
        }
    }
    lemma_parse_with_zeros(a + b, suffix_zeros(u));
}

/// Seeders and leechers are counts read the same way: a count with a `K`, `M`
/// or `B` suffix (`1.5K`) in the leechers cell never makes the row fail as
/// "not a number", and a torrent read from the row has that count expanded.
pub proof fn lemma_leechers_with_suffix(row: Seq<Seq<ElementView>>, a: Seq<char>, dot: Seq<char>, b: Seq<char>, u: char)
    requires
        all_digits(a),
        all_digits(b),
        dot == Seq::<char>::empty() || dot == seq!['.'],
        u == 'K' || u == 'M' || u == 'B',
        digits_value(a + b) * pow10(suffix_zeros(u)) <= usize::MAX,
        nth_text(field(row, 0), 3) == a + dot + b + seq![u],
    ensures
        row_spec(row) != Err::<Option<TorrentView>, Seq<char>>("Leechers is not a number"@),
        row_spec(row) matches Ok(Some(t)) ==> t.leechers == digits_value(a + b) * pow10(suffix_zeros(u)),
{
    lemma_count_with_suffix(a, dot, b, u);
    lemma_error_messages_differ();
}

/// The same for the seeders cell.
pub proof fn lemma_seeders_with_suffix(row: Seq<Seq<ElementView>>, a: Seq<char>, dot: Seq<char>, b: Seq<char>, u: char)
    requires
        all_digits(a),
        all_digits(b),
        dot == Seq::<char>::empty() || dot == seq!['.'],
        u == 'K' || u == 'M' || u == 'B',
        digits_value(a + b) * pow10(suffix_zeros(u)) <= usize::MAX,
        nth_text(field(row, 0), 2) == a + dot + b + seq![u],
    ensures
        row_spec(row) != Err::<Option<TorrentView>, Seq<char>>("Seeders is not a number"@),
        row_spec(row) matches Ok(Some(t)) ==> t.seeders == digits_value(a + b) * pow10(suffix_zeros(u)),
{
    lemma_count_with_suffix(a, dot, b, u);
    lemma_error_messages_differ();
}

/// A row whose seeders and leechers cells hold the same text gives a torrent
/// with as many seeders as leechers.
pub proof fn lemma_counts_read_alike(row: Seq<Seq<ElementView>>)
    requires
        nth_text(field(row, 0), 2) == nth_text(field(row, 0), 3),
    ensures
        row_spec(row) matches Ok(Some(t)) ==> t.seeders == t.leechers,
{
}

proof fn lemma_error_messages_differ()
    ensures
        "Leechers is not a number"@ != "Could not find the magnet link"@,
        "Leechers is not a number"@ != "Magnet link does not have an href attribute"@,
        "Leechers is not a number"@ != "Could not find the info hash in the magnet link"@,
        "Leechers is not a number"@ != "Could not find the name in the html response"@,
        "Leechers is not a number"@ != "Seeders is not a number"@,
        "Leechers is not a number"@ != "Size is not a number, or cannot be parsed by ByteSize"@,
        "Seeders is not a number"@ != "Could not find the magnet link"@,
        "Seeders is not a number"@ != "Magnet link does not have an href attribute"@,
        "Seeders is not a number"@ != "Could not find the info hash in the magnet link"@,
        "Seeders is not a number"@ != "Could not find the name in the html response"@,
        "Seeders is not a number"@ != "Size is not a number, or cannot be parsed by ByteSize"@,
{
    reveal_strlit("Leechers is not a number");
    reveal_strlit("Could not find the magnet link");
    reveal_strlit("Magnet link does not have an href attribute");
    reveal_strlit("Could not find the info hash in the magnet link");
    reveal_strlit("Could not find the name in the html response");
    reveal_strlit("Seeders is not a number");
    reveal_strlit("Size is not a number, or cannot be parsed by ByteSize");
    assert("Leechers is not a number"@[0] != "Could not find the magnet link"@[0]);
    assert("Leechers is not a number"@[0] != "Magnet link does not have an href attribute"@[0]);
    assert("Leechers is not a number"@[0] != "Could not find the info hash in the magnet link"@[0]);
    assert("Leechers is not a number"@[0] != "Could not find the name in the html response"@[0]);
    assert("Leechers is not a number"@[0] != "Seeders is not a number"@[0]);
    assert("Leechers is not a number"@[0] != "Size is not a number, or cannot be parsed by ByteSize"@[0]);
    assert("Seeders is not a number"@[0] != "Could not find the magnet link"@[0]);
    assert("Seeders is not a number"@[0] != "Magnet link does not have an href attribute"@[0]);
    assert("Seeders is not a number"@[0] != "Could not find the info hash in the magnet link"@[0]);
    assert("Seeders is not a number"@[0] != "Could not find the name in the html response"@[0]);
    assert("Seeders is not a number"@.len() != "Size is not a number, or cannot be parsed by ByteSize"@.len());
}

pub struct BitSearch {}

impl BitSearch {
    /// The mirrors of BitSearch, to be taken in turn.
    pub fn round_robin() -> (r: RoundRobin)
        ensures
            r.spec_index() == 0,
            r.spec_urls() == seq![BITSEARCH_API_MAIN@, BITSEARCH_API_MIRROR@],
    {
        let mut urls = Vec::new();
        urls.push(BITSEARCH_API_MAIN.to_owned());
        urls.push(BITSEARCH_API_MIRROR.to_owned());
        assert(urls.deep_view() =~= seq![BITSEARCH_API_MAIN@, BITSEARCH_API_MIRROR@]);
        RoundRobin::new(urls)
    }

    /// The next mirror to ask.
    pub fn get_url(mirrors: &mut RoundRobin) -> (r: String)
        requires
            old(mirrors).spec_urls().len() > 0,
            old(mirrors).spec_index() < usize::MAX,
        ensures
            final(mirrors).spec_index() == old(mirrors).spec_index() + 1,
            final(mirrors).spec_urls() == old(mirrors).spec_urls(),
            r@ == old(mirrors).spec_urls()[(old(mirrors).spec_index() + 1) % old(mirrors).spec_urls().len() as int],
    {
        mirrors.get()
    }

    /// BitSearch's code for a category (`""` for all and for other).
    pub fn format_category(category: &Category) -> (r: &'static str)
        ensures
            r@ == bitsearch_category(*category),
    {
        match category {
            Category::All => "",
            Category::Applications => "5",
            Category::Audio => "7",
            Category::Video => "1",
            Category::Games => "6",
            Category::Other => "",
        }
    }

    /// BitSearch's name for a sort column.
    pub fn format_sort(column: &SortColumn) -> (r: &'static str)
        ensures
            r@ == bitsearch_sort(*column),
    {
        match column {
            SortColumn::Added => "date",
            SortColumn::Leechers => "leechers",
            SortColumn::Size => "size",
            SortColumn::Seeders => "seeders",
        }
    }

    /// Writes a count such as `1.2K` as digits.
    pub fn expand_number(number: &str) -> (r: String)
        ensures
            r@ == expanded(number@),
    {
        proof {
            reveal_strlit("K");
            reveal_strlit("M");
            reveal_strlit("B");
            reveal_strlit(".");
            assert("K"@ =~= seq!['K']);
            assert("M"@ =~= seq!['M']);
            assert("B"@ =~= seq!['B']);
            assert("."@ =~= seq!['.']);
        }
        if contains_char(number, 'K') {
            let t = str_replace(number, "K", "00");
            return str_replace(t.as_str(), ".", "");
        }
        if contains_char(number, 'M') {
            let t = str_replace(number, "M", "00000");
            return str_replace(t.as_str(), ".", "");
        }
        if contains_char(number, 'B') {
            let t = str_replace(number, "B", "00000000");
            return str_replace(t.as_str(), ".", "");
        }
        number.to_owned()
    }

    /// The URL of a search on the next mirror: query, sort, order and category.
    pub fn format_url(mirrors: &mut RoundRobin, search_options: &SearchOptions) -> (r: String)
        requires
            old(mirrors).spec_urls().len() > 0,
            old(mirrors).spec_index() < usize::MAX,
        ensures
            final(mirrors).spec_index() == old(mirrors).spec_index() + 1,
            final(mirrors).spec_urls() == old(mirrors).spec_urls(),
            r@ == url_with_pair(
                url_with_pair(
                    url_with_pair(
                        url_with_pair(
                            old(mirrors).spec_urls()[(old(mirrors).spec_index() + 1) % old(mirrors).spec_urls().len() as int],
                            "q"@,
                            search_options.spec_query(),
                        ),
                        "sort"@,
                        bitsearch_sort(search_options.spec_sort()),
                    ),
                    "order"@,
                    search_options.spec_order().text(),
                ),
                "category"@,
                bitsearch_category(search_options.spec_category()),
            ),
    {
        let url = BitSearch::get_url(mirrors);
        let url = call_append_pair(url.as_str(), "q", search_options.query());
        let url = call_append_pair(url.as_str(), "sort", BitSearch::format_sort(search_options.sort()));
        let order = search_options.order().to_string();
        let url = call_append_pair(url.as_str(), "order", order.as_str());
        call_append_pair(url.as_str(), "category", BitSearch::format_category(search_options.category()))
    }

    /// Reads one result row: `None` for a row without a size.
    pub fn torrent_from_row(row: &Vec<Vec<Element>>) -> (r: Result<Option<Torrent>, Error>)
        ensures
            match r {
                Ok(Some(t)) => row_spec(row.deep_view()) == Ok::<Option<TorrentView>, Seq<char>>(Some(t@)),
                Ok(None) => row_spec(row.deep_view()) == Ok::<Option<TorrentView>, Seq<char>>(None),
                Err(e) => e.spec_kind() == ErrorKind::ScrapingError
                    && row_spec(row.deep_view()) == Err::<Option<TorrentView>, Seq<char>>(e.spec_message()),
            },
    {
        let ghost rv = row.deep_view();
        let empty: Vec<Element> = Vec::new();
        assert(empty.deep_view() =~= Seq::<ElementView>::empty());
        let stats = match field_of(row, 0) {
            Some(s) => s,
            None => &empty,
        };
        let magnets = match field_of(row, 1) {
            Some(s) => s,
            None => &empty,
        };
        let names = match field_of(row, 2) {
            Some(s) => s,
            None => &empty,
        };
        let categories = match field_of(row, 3) {
            Some(s) => s,
            None => &empty,
        };
        let size = text_at(stats, 1);
        let seeders_text = text_at(stats, 2);
        let seeders = BitSearch::expand_number(seeders_text.as_str());
        let leechers_text = text_at(stats, 3);
        let leechers = BitSearch::expand_number(leechers_text.as_str());
        let date = text_at(stats, 4);
        let date = concat(date.as_str(), " 00:00");
        let added = parse_datetime_or_epoch(date.as_str(), DATE_FORMAT);
        if size.as_str().is_empty() {
            return Ok(None);
        }
        if magnets.len() == 0 {
            return Err(scraping_error("Could not find the magnet link"));
        }
        let href = match &magnets[0].1 {
            Some(h) => h,
            None => {
                return Err(scraping_error("Magnet link does not have an href attribute"));
            },
        };
        assert("dn=%5BBitsearch.to%5D+"@.len() > 0) by {
            reveal_strlit("dn=%5BBitsearch.to%5D+");
        }
        let magnet = str_replace(href.as_str(), "dn=%5BBitsearch.to%5D+", "dn=");
        let hash_match = match find_first(INFO_HASH_PATTERN, magnet.as_str()) {
            Some(m) => m,
            None => {
                return Err(scraping_error("Could not find the info hash in the magnet link"));
            },
        };
        assert("urn:btih:"@.len() > 0) by {
            reveal_strlit("urn:btih:");
        }
        let info_hash = str_replace(hash_match.as_str(), "urn:btih:", "");
        if names.len() == 0 {
            return Err(scraping_error("Could not find the name in the html response"));
        }
        let name = element_text(&names[0]);
        let leechers = match parse_usize(leechers.as_str()) {
            Some(l) => l,
            None => {
                return Err(scraping_error("Leechers is not a number"));
            },
        };
        let seeders = match parse_usize(seeders.as_str()) {
            Some(s) => s,
            None => {
                return Err(scraping_error("Seeders is not a number"));
            },
        };
        let size = match call_parse_byte_size(size.as_str()) {
            Some(z) => z,
            None => {
                return Err(scraping_error("Size is not a number, or cannot be parsed by ByteSize"));
            },
        };
        let category = text_at(categories, 0);
        let props = properties_of_name(String::new(), name.as_str());
        let mut provider = Vec::new();
        provider.push(Provider::BitSearch);
        let id = info_hash.clone();
        let t = Torrent {
            added,
            category,
            file_count: 0,
            id,
            info_hash,
            leechers,
            name,
            seeders,
            size,
            provider,
            magnet,
            movie_properties: Some(props),
        };
        assert(""@ =~= Seq::<char>::empty()) by {
            reveal_strlit("");
        }
        Ok(Some(t))
    }

    /// The torrents of the scraped result rows, in order; the first row that
    /// fails makes the whole page fail.
    pub fn torrents_from_rows(rows: &Vec<Vec<Vec<Element>>>) -> (r: Result<Vec<Torrent>, Error>)
        ensures
            match r {
                Ok(ts) => rows_prefix(rows.deep_view(), rows@.len() as int) == Ok::<Seq<TorrentView>, Seq<char>>(views(ts@)),
                Err(e) => e.spec_kind() == ErrorKind::ScrapingError
                    && rows_prefix(rows.deep_view(), rows@.len() as int) == Err::<Seq<TorrentView>, Seq<char>>(e.spec_message()),
            },
    {
        let ghost rv = rows.deep_view();
        let mut r: Vec<Torrent> = Vec::new();
        let mut i: usize = 0;
        assert(views(r@) =~= Seq::<TorrentView>::empty());
        while i < rows.len()
            invariant
                rv == rows.deep_view(),
                i <= rows@.len(),
                rows_prefix(rv, i as int) == Ok::<Seq<TorrentView>, Seq<char>>(views(r@)),
            decreases rows.len() - i,
        {
            assert(rv[i as int] == rows[i as int].deep_view());
            match BitSearch::torrent_from_row(&rows[i]) {
                Ok(Some(t)) => {
                    let ghost old_r = r@;
                    r.push(t);
                    assert(views(r@) =~= views(old_r).push(t@));
                },
                Ok(None) => {},
                Err(e) => {
                    proof {
                        lemma_rows_error_stays(rv, i + 1, rows@.len() as int, e.spec_message());
                    }
                    return Err(e);
                },
            }
            i = i + 1;
        }
        Ok(r)
    }

    /// The torrents of a BitSearch result page.
    pub fn torrents_from_page(html: &str) -> (r: Result<Vec<Torrent>, Error>)
        ensures
            ({
                let rows = scraped(html@, ROW_SELECTOR@, row_fields());
                match r {
                    Ok(ts) => rows_prefix(rows, rows.len() as int) == Ok::<Seq<TorrentView>, Seq<char>>(views(ts@)),
                    Err(e) => e.spec_kind() == ErrorKind::ScrapingError
                        && rows_prefix(rows, rows.len() as int) == Err::<Seq<TorrentView>, Seq<char>>(e.spec_message()),
                }
            }),
    {
        let mut fields: Vec<&str> = Vec::new();
        fields.push(STATS_SELECTOR);
        fields.push(MAGNET_SELECTOR);
        fields.push(NAME_SELECTOR);
        fields.push(CATEGORY_SELECTOR);
        assert(fields.deep_view() =~= row_fields());
        let rows = call_scrape(html, ROW_SELECTOR, &fields);
        BitSearch::torrents_from_rows(&rows)
    }

    /// The search that a movie search runs on BitSearch: its title among
    /// videos, with the movie search's sort and order; none without a title.
    pub fn movie_search_options(movie_options: &MovieOptions) -> (r: Option<SearchOptions>)
        ensures
            match r {
                Some(o) => movie_options.spec_title() is Some
                    && o.spec_query() == movie_options.spec_title()->0
                    && o.spec_category() == Category::Video
                    && o.spec_sort() == movie_options.spec_sort()
                    && o.spec_order() == movie_options.spec_order(),
                None => movie_options.spec_title() is None,
            },
    {
        match movie_options.title() {
            Some(title) => Some(
                SearchOptions::new(
                    title.clone(),
                    Category::Video,
                    *movie_options.sort(),
                    *movie_options.order(),
                ),
            ),
            None => None,
        }
    }

    /// The torrents whose titles name the movie `title`, in order.
    pub fn retain_title_matches(torrents: Vec<Torrent>, title: &str) -> (r: Vec<Torrent>)
        ensures
            views(r@) == views(torrents@).filter(|t: TorrentView| title_matches(title@, t.name)),
    {
        let ghost all = views(torrents@);
        let ghost n = torrents@.len();
        let mut rest = torrents;
        let mut r: Vec<Torrent> = Vec::new();
        assert(all.skip(0) == all);
        while rest.len() > 0
            invariant
                n == all.len(),
                rest@.len() <= n,
                views(rest@) == all.skip(n - rest@.len()),
                views(r@) == all.take(n - rest@.len()).filter(
                    |t: TorrentView| title_matches(title@, t.name),
                ),
            decreases rest.len(),
        {
            let ghost k = n - rest@.len();
            let ghost before = all.take(k);
            assert(all.take(k + 1) == before.push(all[k]));
            proof {
                before.lemma_filter_push(all[k], |t: TorrentView| title_matches(title@, t.name));
            }
            let ghost old_rest = rest@;
            let t = rest.remove(0);
            assert(t == old_rest[0]);
            assert(views(old_rest)[0] == all.skip(k)[0]);
            assert(views(rest@) =~= all.skip(k + 1)) by {
                assert forall|j: int| 0 <= j < rest@.len() implies views(rest@)[j] == all.skip(
                    k + 1,
                )[j] by {
                    assert(rest@[j] == old_rest[j + 1]);
                    assert(views(old_rest)[j + 1] == all.skip(k)[j + 1]);
                }
            }
            if is_title_match(title, t.name.as_str()) {
                let ghost old_r = r@;
                r.push(t);
                assert(views(r@) =~= views(old_r).push(t@));
            }
        }
        assert(all.take(n as int) == all);
        r
    }
}

} // verus!
