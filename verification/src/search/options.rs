//! Search options: the category, sort column and order that a search asks
//! for, how each is read from user text, and the option records themselves.
use vstd::prelude::*;
use crate::text::{ascii_lower_seq, str_eq, to_ascii_lowercase};

verus! {

/// The option that a user gave a value for that could not be read.
#[derive(Debug, Clone, Copy, PartialEq, Eq, Structural)]
pub enum SearchOption {
    Category,
    Order,
    Sort,
}

impl SearchOption {
    pub open spec fn name(self) -> Seq<char> {
        match self {
            SearchOption::Category => "category"@,
            SearchOption::Order => "order"@,
            SearchOption::Sort => "sort"@,
        }
    }

    /// The option's name as it appears in a query.
    pub fn to_string(&self) -> (r: String)
        ensures
            r@ == self.name(),
    {
        match self {
            SearchOption::Category => "category".to_owned(),
            SearchOption::Order => "order".to_owned(),
            SearchOption::Sort => "sort".to_owned(),
        }
    }
}

/// The error for an option value that is not recognised.
#[derive(Debug)]
pub struct InvalidOptionError {
    option: SearchOption,
}

impl InvalidOptionError {
    pub closed spec fn spec_option(&self) -> SearchOption {
        self.option
    }

    pub fn new(option: SearchOption) -> (r: Self)
        ensures
            r.spec_option() == option,
    {
        Self { option }
    }

    pub fn option(&self) -> (r: &SearchOption)
        ensures
            *r == self.spec_option(),
    {
        &self.option
    }
}

/// The kind of torrent a search is limited to.
#[derive(Debug, Clone, Copy, PartialEq, Eq, Structural)]
pub enum Category {
    All,
    Audio,
    Video,
    Applications,
    Games,
    Other,
}

impl Category {
    /// The category that a (case-insensitive) name stands for.
    pub open spec fn parse_spec(s: Seq<char>) -> Option<Category> {
        let l = ascii_lower_seq(s);
        if l == "all"@ {
            Some(Category::All)
        } else if l == "applications"@ {
            Some(Category::Applications)
        } else if l == "audio"@ {
            Some(Category::Audio)
        } else if l == "games"@ {
            Some(Category::Games)
        } else if l == "other"@ {
            Some(Category::Other)
        } else if l == "video"@ {
            Some(Category::Video)
        } else {
            None
        }
    }

    /// Reads a category name; any other text is an error about the category option.
    pub fn from_str(s: &str) -> (r: Result<Category, InvalidOptionError>)
        ensures
            match r {
                Ok(c) => Category::parse_spec(s@) == Some(c),
                Err(e) => Category::parse_spec(s@).is_none() && e.spec_option()
                    == SearchOption::Category,
            },
    {
        let l = to_ascii_lowercase(s);
        let l = l.as_str();
        if str_eq(l, "all") {
            Ok(Category::All)
        } else if str_eq(l, "applications") {
            Ok(Category::Applications)
        } else if str_eq(l, "audio") {
            Ok(Category::Audio)
        } else if str_eq(l, "games") {
            Ok(Category::Games)
        } else if str_eq(l, "other") {
            Ok(Category::Other)
        } else if str_eq(l, "video") {
            Ok(Category::Video)
        } else {
            Err(InvalidOptionError::new(SearchOption::Category))
        }
    }
}

impl Default for Category {
    fn default() -> (r: Self)
        ensures
            r == Category::All,
    {
        Category::All
    }
}

/// The direction that results are sorted in.
#[derive(Debug, Clone, Copy, PartialEq, Eq, Structural)]
pub enum Order {
    Descending,
    Ascending,
}

impl Order {
    /// The order that a (case-insensitive) word stands for.
    pub open spec fn parse_spec(s: Seq<char>) -> Option<Order> {
        let l = ascii_lower_seq(s);
        if l == "a"@ || l == "asc"@ || l == "ascending"@ {
            Some(Order::Ascending)
        } else if l == "d"@ || l == "desc"@ || l == "descending"@ {
            Some(Order::Descending)
        } else {
            None
        }
    }

    /// The short form used in query strings.
    pub open spec fn text(self) -> Seq<char> {
        match self {
            Order::Ascending => "asc"@,
            Order::Descending => "desc"@,
        }
    }

    /// Reads an order; any other text is an error about the order option.
    pub fn from_str(s: &str) -> (r: Result<Order, InvalidOptionError>)
        ensures
            match r {
                Ok(o) => Order::parse_spec(s@) == Some(o),
                Err(e) => Order::parse_spec(s@).is_none() && e.spec_option() == SearchOption::Order,
            },
    {
        let l = to_ascii_lowercase(s);
        let l = l.as_str();
        if str_eq(l, "a") || str_eq(l, "asc") || str_eq(l, "ascending") {
            Ok(Order::Ascending)
        } else if str_eq(l, "d") || str_eq(l, "desc") || str_eq(l, "descending") {
            Ok(Order::Descending)
        } else {
            Err(InvalidOptionError::new(SearchOption::Order))
        }
    }

    /// The short form used in query strings: `asc` or `desc`.
    pub fn to_string(&self) -> (r: String)
        ensures
            r@ == self.text(),
    {
        match self {
            Order::Ascending => "asc".to_owned(),
            Order::Descending => "desc".to_owned(),
        }
    }
}

/// An order written out for a query string reads back as the same order.
pub proof fn lemma_order_text_reads_back(o: Order)
    ensures
        Order::parse_spec(o.text()) == Some(o),
{
    reveal_strlit("asc");
    reveal_strlit("desc");
    reveal_strlit("a");
    reveal_strlit("ascending");
    assert(ascii_lower_seq("asc"@) =~= "asc"@);
    assert(ascii_lower_seq("desc"@) =~= "desc"@);
}

impl Default for Order {
    fn default() -> (r: Self)
        ensures
            r == Order::Descending,
    {
        Order::Descending
    }
}

/// The column that results are sorted by.
#[derive(Debug, Clone, Copy, PartialEq, Eq, Structural)]
pub enum SortColumn {
    Seeders,
    Added,
    Size,
    Leechers,
}

impl SortColumn {
    /// The column that a (case-insensitive) word stands for.
    pub open spec fn parse_spec(s: Seq<char>) -> Option<SortColumn> {
        let l = ascii_lower_seq(s);
        if l == "time"@ || l == "date"@ || l == "added"@ {
            Some(SortColumn::Added)
        } else if l == "size"@ {
            Some(SortColumn::Size)
        } else if l == "leechers"@ {
            Some(SortColumn::Leechers)
        } else if l == "seeders"@ {
            Some(SortColumn::Seeders)
        } else {
            None
        }
    }

    /// Reads a sort column; any other text is an error about the sort option.
    pub fn from_str(s: &str) -> (r: Result<SortColumn, InvalidOptionError>)
        ensures
            match r {
                Ok(c) => SortColumn::parse_spec(s@) == Some(c),
                Err(e) => SortColumn::parse_spec(s@).is_none() && e.spec_option()
                    == SearchOption::Sort,
            },
    {
        let l = to_ascii_lowercase(s);
        let l = l.as_str();
        if str_eq(l, "time") || str_eq(l, "date") || str_eq(l, "added") {
            Ok(SortColumn::Added)
        } else if str_eq(l, "size") {
            Ok(SortColumn::Size)
        } else if str_eq(l, "leechers") {
            Ok(SortColumn::Leechers)
        } else if str_eq(l, "seeders") {
            Ok(SortColumn::Seeders)
        } else {
            Err(InvalidOptionError::new(SearchOption::Sort))
        }
    }
}

impl Default for SortColumn {
    fn default() -> (r: Self)
        ensures
            r == SortColumn::Seeders,
    {
        SortColumn::Seeders
    }
}

/// A free-text search.
pub struct SearchOptions {
    query: String,
    category: Category,
    sort: SortColumn,
    order: Order,
}

impl SearchOptions {
    pub closed spec fn spec_query(&self) -> Seq<char> {
        self.query@
    }

    pub closed spec fn spec_category(&self) -> Category {
        self.category
    }

    pub closed spec fn spec_sort(&self) -> SortColumn {
        self.sort
    }

    pub closed spec fn spec_order(&self) -> Order {
        self.order
    }

    pub fn new(query: String, category: Category, sort: SortColumn, order: Order) -> (r: Self)
        ensures
            r.spec_query() == query@,
            r.spec_category() == category,
            r.spec_sort() == sort,
            r.spec_order() == order,
    {
        Self { query, category, sort, order }
    }

    pub fn query(&self) -> (r: &str)
        ensures
            r@ == self.spec_query(),
    {
        self.query.as_str()
    }

    pub fn category(&self) -> (r: &Category)
        ensures
            *r == self.spec_category(),
    {
        &self.category
    }

    pub fn sort(&self) -> (r: &SortColumn)
        ensures
            *r == self.spec_sort(),
    {
        &self.sort
    }

    pub fn order(&self) -> (r: &Order)
        ensures
            *r == self.spec_order(),
    {
        &self.order
    }
}

/// A search for the torrents of one movie, by its IMDb id and, optionally, its title.
pub struct MovieOptions {
    imdb: String,
    title: Option<String>,
    sort: SortColumn,
    order: Order,
}

impl MovieOptions {
    pub closed spec fn spec_imdb(&self) -> Seq<char> {
        self.imdb@
    }

    pub closed spec fn spec_title(&self) -> Option<Seq<char>> {
        self.title.deep_view()
    }

    pub closed spec fn spec_sort(&self) -> SortColumn {
        self.sort
    }

    pub closed spec fn spec_order(&self) -> Order {
        self.order
    }

    pub fn new(imdb: String, title: Option<String>, sort: SortColumn, order: Order) -> (r: Self)
        ensures
            r.spec_imdb() == imdb@,
            r.spec_title() == title.deep_view(),
            r.spec_sort() == sort,
            r.spec_order() == order,
    {
        Self { imdb, title, sort, order }
    }

    pub fn imdb(&self) -> (r: &str)
        ensures
            r@ == self.spec_imdb(),
    {
        self.imdb.as_str()
    }

    pub fn title(&self) -> (r: &Option<String>)
        ensures
            r.deep_view() == self.spec_title(),
    {
        &self.title
    }

    pub fn sort(&self) -> (r: &SortColumn)
        ensures
            *r == self.spec_sort(),
    {
        &self.sort
    }

    pub fn order(&self) -> (r: &Order)
        ensures
            *r == self.spec_order(),
    {
        &self.order
    }
}

} // verus!
