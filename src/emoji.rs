//! Emoji records, the in-memory index of remote emoji, and the pull-based
//! pager that enumerates the remote list page by page.
use vstd::prelude::*;

verus! {

/// A creation time: whole seconds since the Unix epoch plus the
/// sub-second part in nanoseconds.
pub struct Timestamp {
    pub secs: i64,
    pub nanos: u32,
}

/// One custom emoji as the remote service knows it.
pub struct Emoji {
    pub name: String,
    pub url: String,
    pub added_by: String,
    /// Empty when the emoji is not an alias; otherwise the name of its target.
    pub alias_for: String,
    pub created: Timestamp,
}

pub const DEFAULT_STARTING_PAGE: u16 = 1;

pub const DEFAULT_NUM_EMOJIS_PER_PAGE: u8 = 100;

/// Where the remote enumeration starts, how large its pages are, and how many
/// pages it may fetch at most.
pub struct EmojiStreamParameters {
    pub starting_page_number: u16,
    pub num_emojis_per_page: u8,
    pub limit_num_pages: Option<u16>,
}

impl Default for EmojiStreamParameters {
    fn default() -> (r: Self)
        ensures
            r.starting_page_number == DEFAULT_STARTING_PAGE,
            r.num_emojis_per_page == DEFAULT_NUM_EMOJIS_PER_PAGE,
            r.limit_num_pages is None,
    {
        Self {
            starting_page_number: DEFAULT_STARTING_PAGE,
            num_emojis_per_page: DEFAULT_NUM_EMOJIS_PER_PAGE,
            limit_num_pages: None,
        }
    }
}

impl EmojiStreamParameters {
    pub fn new(starting_page_number: u16, num_emojis_per_page: u8, limit_num_pages: Option<u16>) -> (r: Self)
        ensures
            r.starting_page_number == starting_page_number,
            r.num_emojis_per_page == num_emojis_per_page,
            r.limit_num_pages == limit_num_pages,
    {
        Self { starting_page_number, num_emojis_per_page, limit_num_pages }
    }
}

/// What the remote index says about a name.
pub enum EmojiExistenceKind {
    Exists,
    ExistsAsAliasFor(String),
    DoesNotExist,
}

/// The most recently inserted record named `name`, if any.
pub open spec fn lookup(entries: Seq<Emoji>, name: Seq<char>) -> Option<Emoji>
    decreases entries.len(),
{
    if entries.len() == 0 {
        None
    } else if entries.last().name@ == name {
        Some(entries.last())
    } else {
        lookup(entries.drop_last(), name)
    }
}

/// The existence status that an index holding `entries` reports for `name`.
pub open spec fn existence_of(entries: Seq<Emoji>, name: Seq<char>) -> EmojiExistenceKind {
    match lookup(entries, name) {
        None => EmojiExistenceKind::DoesNotExist,
        Some(e) => if e.alias_for@.len() == 0 {
            EmojiExistenceKind::Exists
        } else {
            EmojiExistenceKind::ExistsAsAliasFor(e.alias_for)
        },
    }
}

/// The remote emoji indexed by name. Its view is the sequence of inserted
/// records; a later record shadows an earlier one of the same name.
pub struct EmojiCollection {
    entries: Vec<Emoji>,
}

impl View for EmojiCollection {
    type V = Seq<Emoji>;

    closed spec fn view(&self) -> Seq<Emoji> {
        self.entries@
    }
}

impl EmojiCollection {
    pub fn new() -> (r: Self)
        ensures
            r@ == Seq::<Emoji>::empty(),
    {
        EmojiCollection { entries: Vec::new() }
    }

    /// Adds `emoji`, returning the record it replaces under the same name.
    pub fn insert(&mut self, emoji: Emoji) -> (r: Option<Emoji>)
        ensures
            final(self)@ == old(self)@.push(emoji),
            r == lookup(old(self)@, emoji.name@),
    {
        let r = self.take_lookup(&emoji.name);
        self.entries.push(emoji);
        r
    }

    /// Builds the index from a complete enumeration of the remote list.
    pub fn from_emojis(emojis: Vec<Emoji>) -> (r: Self)
        ensures
            r@ == emojis@,
    {
        EmojiCollection { entries: emojis }
    }

    fn find_last(&self, name: &String) -> (r: Option<usize>)
        ensures
            match r {
                Some(i) => i < self@.len() && lookup(self@, name@) == Some(self@[i as int]),
                None => lookup(self@, name@) is None,
            },
    {
        let mut i: usize = self.entries.len();
        assert(self.entries@.take(i as int) =~= self.entries@);
        while i > 0
            invariant
                i <= self.entries@.len(),
                lookup(self.entries@, name@) == lookup(self.entries@.take(i as int), name@),
            decreases i,
        {
            let j = i - 1;
            assert(self.entries@.take(i as int).drop_last() =~= self.entries@.take(j as int));
            assert(self.entries@.take(i as int).last() == self.entries@[j as int]);
            if self.entries[j].name == *name {
                return Some(j);
            }
            i = j;
        }
        None
    }

    fn take_lookup(&self, name: &String) -> (r: Option<Emoji>)
        ensures
            r == lookup(self@, name@),
    {
        match self.find_last(name) {
            Some(i) => Some(self.copy_entry(i)),
            None => None,
        }
    }

    fn copy_entry(&self, i: usize) -> (r: Emoji)
        requires
            i < self@.len(),
        ensures
            r == self@[i as int],
    {
        let e = &self.entries[i];
        Emoji {
            name: e.name.clone(),
            url: e.url.clone(),
            added_by: e.added_by.clone(),
            alias_for: e.alias_for.clone(),
            created: Timestamp { secs: e.created.secs, nanos: e.created.nanos },
        }
    }

    /// Whether `name` exists remotely, and if so whether as an alias.
    pub fn get_existence_status(&self, name: &str) -> (r: EmojiExistenceKind)
        ensures
            r == existence_of(self@, name@),
    {
        let key = name.to_owned();
        match self.find_last(&key) {
            None => EmojiExistenceKind::DoesNotExist,
            Some(i) => {
                let e = &self.entries[i];
                if e.alias_for.as_str().is_empty() {
                    EmojiExistenceKind::Exists
                } else {
                    EmojiExistenceKind::ExistsAsAliasFor(e.alias_for.clone())
                }
            },
        }
    }
}

/// The abstract state of a pager: `next_page` is the page it would fetch
/// next, `total` the page count latched from the first response.
pub ghost struct PagerState {
    pub start: int,
    pub per_page: u8,
    pub limit: Option<int>,
    pub next_page: int,
    pub total: Option<int>,
    pub failed: bool,
}

pub open spec fn pager_start(p: EmojiStreamParameters) -> PagerState {
    PagerState {
        start: p.starting_page_number as int,
        per_page: p.num_emojis_per_page,
        limit: match p.limit_num_pages {
            Some(l) => Some(l as int),
            None => None,
        },
        next_page: p.starting_page_number as int,
        total: None,
        failed: false,
    }
}

/// The page a pager in state `s` asks for next, or `None` once it is done:
/// after a failure, past the latched total, or when the page limit is reached.
pub open spec fn pager_request(s: PagerState) -> Option<int> {
    if s.failed {
        None
    } else if s.total matches Some(t) && s.next_page > t {
        None
    } else if s.limit matches Some(l) && s.next_page - s.start >= l {
        None
    } else {
        Some(s.next_page)
    }
}

/// The total that is latched once a response reporting `reported` pages arrives.
pub open spec fn latched_total(s: PagerState, reported: int) -> int {
    match s.total {
        Some(t) => t,
        None => reported,
    }
}

/// The state after a response for the requested page that reports `reported` pages.
pub open spec fn pager_after_page(s: PagerState, reported: int) -> PagerState {
    PagerState { next_page: s.next_page + 1, total: Some(latched_total(s, reported)), ..s }
}

/// Whether the records of the page just fetched are handed on: every fetched
/// page's are, unless the remote reports no pages at all, in which case the
/// enumeration yields nothing.
pub open spec fn page_yields(s: PagerState, reported: int) -> bool {
    latched_total(s, reported) >= 1
}

/// The state after `k` responses that each report `total` pages.
pub open spec fn pager_run(s: PagerState, total: int, k: nat) -> PagerState
    decreases k,
{
    if k == 0 {
        s
    } else {
        pager_after_page(pager_run(s, total, (k - 1) as nat), total)
    }
}

/// How many pages an enumeration fetches from a remote that reports `total`
/// pages: the first page always, then every page up to the total, and never
/// more than the limit.
pub open spec fn fetch_count(p: EmojiStreamParameters, total: int) -> int {
    let start = p.starting_page_number as int;
    let reach = if total >= start { total - start + 1 } else { 1 };
    match p.limit_num_pages {
        Some(l) => if (l as int) < reach { l as int } else { reach },
        None => reach,
    }
}

proof fn lemma_pager_run_state(p: EmojiStreamParameters, total: int, k: nat)
    ensures
        pager_run(pager_start(p), total, k) == (PagerState {
            next_page: p.starting_page_number + k,
            total: if k == 0 { None } else { Some(total) },
            ..pager_start(p)
        }),
    decreases k,
{
    if k > 0 {
        lemma_pager_run_state(p, total, (k - 1) as nat);
    }
}

/// Pagination ends: against a remote that reports `total` pages, the pager
/// asks for the consecutive pages from the starting page on, exactly
/// `fetch_count` of them, and then stops; the records of every fetched page
/// are handed on, unless the remote reports zero pages.
pub proof fn lemma_pagination_terminates(p: EmojiStreamParameters, total: int, k: nat)
    requires
        0 <= total,
    ensures
        k < fetch_count(p, total) ==> pager_request(pager_run(pager_start(p), total, k)) == Some(
            p.starting_page_number + k,
        ),
        k < fetch_count(p, total) ==> (page_yields(pager_run(pager_start(p), total, k), total)
            <==> total >= 1),
        k == fetch_count(p, total) ==> pager_request(pager_run(pager_start(p), total, k)) is None,
{
    lemma_pager_run_state(p, total, k);
}

/// The pull-based enumeration of the remote list. The caller asks for the
/// next page to fetch, fetches it, and hands the response back; the pager
/// returns the records to pass on, in the order the remote sent them.
pub struct EmojiPager {
    starting_page: u16,
    per_page: u8,
    limit: Option<u16>,
    next_page: u32,
    total: Option<u16>,
    failed: bool,
}

impl View for EmojiPager {
    type V = PagerState;

    closed spec fn view(&self) -> PagerState {
        PagerState {
            start: self.starting_page as int,
            per_page: self.per_page,
            limit: match self.limit {
                Some(l) => Some(l as int),
                None => None,
            },
            next_page: self.next_page as int,
            total: match self.total {
                Some(t) => Some(t as int),
                None => None,
            },
            failed: self.failed,
        }
    }
}

impl EmojiPager {
    pub closed spec fn wf(&self) -> bool {
        &&& self.starting_page <= self.next_page
        &&& self.total is None ==> self.next_page == self.starting_page
        &&& self.total matches Some(t) ==> self.next_page <= 1 + if t >= self.starting_page {
            t as int
        } else {
            self.starting_page as int
        }
    }

    /// A pager over the given parameters, or the defaults when none are given.
    pub fn new(stream_parameters: Option<EmojiStreamParameters>) -> (r: Self)
        ensures
            r.wf(),
            r@ == pager_start(
                match stream_parameters {
                    Some(p) => p,
                    None => EmojiStreamParameters {
                        starting_page_number: DEFAULT_STARTING_PAGE,
                        num_emojis_per_page: DEFAULT_NUM_EMOJIS_PER_PAGE,
                        limit_num_pages: None,
                    },
                },
            ),
    {
        let p = match stream_parameters {
            Some(p) => p,
            None => EmojiStreamParameters::default(),
        };
        EmojiPager {
            starting_page: p.starting_page_number,
            per_page: p.num_emojis_per_page,
            limit: p.limit_num_pages,
            next_page: p.starting_page_number as u32,
            total: None,
            failed: false,
        }
    }

    /// The number of records to ask for on each page.
    pub fn page_size(&self) -> (r: u8)
        ensures
            r == self@.per_page,
    {
        self.per_page
    }

    /// The page to fetch next, or `None` when the enumeration is over.
    pub fn next_request(&self) -> (r: Option<u16>)
        requires
            self.wf(),
        ensures
            match pager_request(self@) {
                Some(n) => r == Some(n as u16) && n == r.unwrap() as int,
                None => r is None,
            },
    {
        if self.failed {
            return None;
        }
        if let Some(t) = self.total {
            if self.next_page > t as u32 {
                return None;
            }
        }
        if let Some(l) = self.limit {
            if self.next_page - self.starting_page as u32 >= l as u32 {
                return None;
            }
        }
        Some(self.next_page as u16)
    }

    /// Takes the response to the requested page: its records and the page
    /// count it reports. Returns the records to hand on.
    pub fn accept_page(&mut self, emojis: Vec<Emoji>, num_pages: u16) -> (r: Vec<Emoji>)
        requires
            old(self).wf(),
            pager_request(old(self)@) is Some,
        ensures
            final(self).wf(),
            final(self)@ == pager_after_page(old(self)@, num_pages as int),
            r@ == if page_yields(old(self)@, num_pages as int) {
                emojis@
            } else {
                Seq::<Emoji>::empty()
            },
    {
        let t: u16 = match self.total {
            Some(t) => t,
            None => num_pages,
        };
        self.total = Some(t);
        let within = t >= 1;
        self.next_page = self.next_page + 1;
        if within {
            emojis
        } else {
            Vec::new()
        }
    }

    /// Ends the enumeration after a failed fetch.
    pub fn fail(&mut self)
        ensures
            final(self).wf() == old(self).wf(),
            final(self)@ == (PagerState { failed: true, ..old(self)@ }),
    {
        self.failed = true;
    }
}

} // verus!
