use vstd::prelude::*;

verus! {

/// Page number and page size as a client asks for them.
pub struct PaginationParams {
    pub page: Option<u32>,
    pub per_page: Option<u32>,
}

impl Default for PaginationParams {
    fn default() -> (r: Self)
        ensures
            r.page == Some(1u32),
            r.per_page == Some(20u32),
    {
        PaginationParams { page: Some(1), per_page: Some(20) }
    }
}

impl PaginationParams {
    /// The page asked for, the first page when none is given.
    pub fn page_or_default(&self) -> (r: u32)
        ensures
            r == match self.page { Some(p) => p, None => 1u32 },
    {
        match self.page {
            Some(p) => p,
            None => 1,
        }
    }

    /// The page size asked for, twenty when none is given.
    pub fn per_page_or_default(&self) -> (r: u32)
        ensures
            r == match self.per_page { Some(p) => p, None => 20u32 },
    {
        match self.per_page {
            Some(p) => p,
            None => 20,
        }
    }
}

/// `a / b` rounded up, for a positive `b`.
pub open spec fn ceil_div(a: nat, b: nat) -> nat
    recommends
        b > 0,
{
    if a % b == 0 {
        a / b
    } else {
        a / b + 1
    }
}

/// Number of pages of `per_page` items that hold `total` items, saturated at
/// `u32::MAX`. A page size of zero holds nothing: no pages when there is
/// nothing to hold, the largest count otherwise.
pub open spec fn page_count(total: nat, per_page: nat) -> nat {
    if per_page == 0 {
        if total == 0 {
            0
        } else {
            u32::MAX as nat
        }
    } else if ceil_div(total, per_page) > u32::MAX {
        u32::MAX as nat
    } else {
        ceil_div(total, per_page)
    }
}

/// Computes `page_count`.
pub fn total_pages(total: u64, per_page: u32) -> (r: u32)
    ensures
        r as nat == page_count(total as nat, per_page as nat),
{
    if per_page == 0 {
        if total == 0 {
            0
        } else {
            u32::MAX
        }
    } else {
        let pp = per_page as u128;
        let t = total as u128;
        let q = t / pp;
        let c = if t % pp == 0 {
            q
        } else {
            q + 1
        };
        if c > u32::MAX as u128 {
            u32::MAX
        } else {
            c as u32
        }
    }
}

/// Start index of a page in a sequence of `len` items: pages are numbered
/// from 1, and page 0 is read as page 1.
pub open spec fn page_start(page: nat, per_page: nat) -> nat {
    if page == 0 {
        0
    } else {
        ((page - 1) as nat) * per_page
    }
}

/// The items of one page of `s`: empty when the page starts past the end.
pub open spec fn page_of<A>(s: Seq<A>, page: nat, per_page: nat) -> Seq<A> {
    let start = page_start(page, per_page);
    if start >= s.len() {
        Seq::empty()
    } else if start + per_page >= s.len() {
        s.subrange(start as int, s.len() as int)
    } else {
        s.subrange(start as int, (start + per_page) as int)
    }
}

/// A page numbered past the page count holds no items.
pub proof fn lemma_page_past_end_is_empty<A>(s: Seq<A>, page: u32, per_page: u32)
    requires
        page as nat > page_count(s.len(), per_page as nat),
    ensures
        page_of(s, page as nat, per_page as nat) == Seq::<A>::empty(),
{
    let n = s.len();
    let pp = per_page as nat;
    if pp > 0 {
        let c = ceil_div(n, pp);
        assert(c * pp >= n) by (nonlinear_arith)
            requires
                pp > 0,
                c == (if n % pp == 0 { n / pp } else { n / pp + 1 }),
        {
            assert(n == pp * (n / pp) + n % pp);
        }
        assert(((page - 1) as nat) * pp >= c * pp) by (nonlinear_arith)
            requires
                (page - 1) as nat >= c,
        ;
    }
}

/// One page of a listing, with the totals of the whole listing.
pub struct PaginatedResponse<T> {
    pub items: Vec<T>,
    pub total: u64,
    pub page: u32,
    pub per_page: u32,
    pub total_pages: u32,
}

impl<T> PaginatedResponse<T> {
    pub fn new(items: Vec<T>, total: u64, page: u32, per_page: u32) -> (r: Self)
        ensures
            r.items@ == items@,
            r.total == total,
            r.page == page,
            r.per_page == per_page,
            r.total_pages as nat == page_count(total as nat, per_page as nat),
    {
        let total_pages = total_pages(total, per_page);
        PaginatedResponse { items, total, page, per_page, total_pages }
    }
}

} // verus!
