use crate::model::ProviderId;
use vstd::prelude::*;

verus! {

/// How many provider tabs fit in the tab strip at once.
pub const PROVIDER_VIEWPORT_SIZE: usize = 6;

/// Page shown after `page` when paging forward through `account_count` accounts.
pub open spec fn next_page(page: int, account_count: int) -> int {
    if account_count == 0 {
        0
    } else {
        (page + 1) % account_count
    }
}

/// Page shown after `page` when paging backward through `account_count` accounts.
pub open spec fn previous_page(page: int, account_count: int) -> int {
    if account_count == 0 {
        0
    } else if page == 0 {
        account_count - 1
    } else {
        page - 1
    }
}

/// The page actually shown when `page` is requested among `account_count` accounts.
pub open spec fn clamped_page(page: int, account_count: int) -> int {
    if account_count == 0 {
        0
    } else if page < account_count - 1 {
        page
    } else {
        account_count - 1
    }
}

/// Advances the account pager, wrapping from the last account to the first.
pub fn account_page_next(page: usize, account_count: usize) -> (r: usize)
    requires
        account_count == 0 || page < usize::MAX,
    ensures
        r == next_page(page as int, account_count as int),
        account_count > 0 ==> r < account_count,
{
    if account_count == 0 {
        0
    } else {
        (page + 1) % account_count
    }
}

/// Moves the account pager back, wrapping from the first account to the last.
pub fn account_page_previous(page: usize, account_count: usize) -> (r: usize)
    ensures
        r == previous_page(page as int, account_count as int),
        account_count > 0 && page <= account_count ==> r < account_count,
{
    if account_count == 0 {
        0
    } else if page == 0 {
        account_count - 1
    } else {
        page - 1
    }
}

/// Clamps a requested account page to the accounts that exist.
pub fn clamp_account_page(page: usize, account_count: usize) -> (r: usize)
    ensures
        r == clamped_page(page as int, account_count as int),
        account_count > 0 ==> r < account_count,
        page < account_count ==> r == page,
{
    if account_count == 0 {
        0
    } else if page < account_count - 1 {
        page
    } else {
        account_count - 1
    }
}

/// Paging forward then backward, or backward then forward, returns to the
/// page one started from, for every page of a non-empty pager.
pub proof fn lemma_account_paging_round_trip(page: int, account_count: int)
    requires
        0 <= page < account_count,
    ensures
        previous_page(next_page(page, account_count), account_count) == page,
        next_page(previous_page(page, account_count), account_count) == page,
{
    if page + 1 < account_count {
        assert((page + 1) % account_count == page + 1) by (nonlinear_arith)
            requires
                0 <= page + 1 < account_count,
        ;
    } else {
        assert((page + 1) % account_count == 0) by (nonlinear_arith)
            requires
                page + 1 == account_count,
                account_count > 0,
        ;
    }
    if page == 0 {
        assert(account_count % account_count == 0) by (nonlinear_arith)
            requires
                account_count > 0,
        ;
    } else {
        assert(page % account_count == page) by (nonlinear_arith)
            requires
                0 <= page < account_count,
        ;
    }
}

/// Clamping a page twice gives the same page as clamping it once.
pub proof fn lemma_clamp_idempotent(page: int, account_count: int)
    requires
        0 <= page,
        0 <= account_count,
    ensures
        clamped_page(clamped_page(page, account_count), account_count) == clamped_page(
            page,
            account_count,
        ),
{
}


/// The largest first tab index that still fills the strip.
pub open spec fn max_viewport_offset(provider_count: int) -> int {
    if provider_count > PROVIDER_VIEWPORT_SIZE {
        provider_count - PROVIDER_VIEWPORT_SIZE
    } else {
        0
    }
}

/// The first tab index actually shown when `offset` is requested.
pub open spec fn clamped_viewport_offset(offset: int, provider_count: int) -> int {
    if offset < max_viewport_offset(provider_count) {
        offset
    } else {
        max_viewport_offset(provider_count)
    }
}

/// One past the last tab index shown when `offset` is requested.
pub open spec fn viewport_end(offset: int, provider_count: int) -> int {
    let start = clamped_viewport_offset(offset, provider_count);
    if start + PROVIDER_VIEWPORT_SIZE < provider_count {
        start + PROVIDER_VIEWPORT_SIZE
    } else {
        provider_count
    }
}

/// The largest first tab index that still fills the strip.
pub fn provider_viewport_max_offset(provider_count: usize) -> (r: usize)
    ensures
        r == max_viewport_offset(provider_count as int),
{
    provider_count.saturating_sub(PROVIDER_VIEWPORT_SIZE)
}

/// Whether there are more tabs than fit, so the strip shows paging arrows.
pub fn provider_viewport_navigation_visible(provider_count: usize) -> (r: bool)
    ensures
        r == (provider_count > PROVIDER_VIEWPORT_SIZE),
{
    provider_viewport_max_offset(provider_count) > 0
}

/// The width shares of each side spacer and of each tab.
pub open spec fn viewport_portions(provider_count: int) -> (int, int) {
    if provider_count < PROVIDER_VIEWPORT_SIZE {
        (PROVIDER_VIEWPORT_SIZE - provider_count, 2)
    } else {
        (0, 1)
    }
}

/// The width shares of the side spacers and of each tab: a strip that is not
/// full is centred with equal spacers on both sides.
pub fn provider_viewport_portions(provider_count: usize) -> (r: (u16, u16))
    ensures
        r.0 as int == viewport_portions(provider_count as int).0,
        r.1 as int == viewport_portions(provider_count as int).1,
{
    if provider_count < PROVIDER_VIEWPORT_SIZE {
        ((PROVIDER_VIEWPORT_SIZE - provider_count) as u16, 2)
    } else {
        (0, 1)
    }
}

/// A strip with fewer tabs than fit is centred and spans the same width
/// whatever the number of tabs: the two side spacers and the tabs together
/// always take twice the strip's capacity in width shares.
pub proof fn lemma_partial_viewport_centered(provider_count: int)
    requires
        0 <= provider_count < PROVIDER_VIEWPORT_SIZE,
    ensures
        2 * viewport_portions(provider_count).0 + viewport_portions(provider_count).1
            * provider_count == 2 * PROVIDER_VIEWPORT_SIZE,
{
}

/// The tabs shown when the strip starts at `offset`: at most a strip's worth,
/// starting no later than the last full strip.
pub fn provider_viewport(providers: &[ProviderId], offset: usize) -> (r: Vec<ProviderId>)
    ensures
        r@ == providers@.subrange(
            clamped_viewport_offset(offset as int, providers@.len() as int),
            viewport_end(offset as int, providers@.len() as int),
        ),
{
    let max = provider_viewport_max_offset(providers.len());
    let start = if offset < max {
        offset
    } else {
        max
    };
    let end = if start + PROVIDER_VIEWPORT_SIZE < providers.len() {
        start + PROVIDER_VIEWPORT_SIZE
    } else {
        providers.len()
    };
    let mut r: Vec<ProviderId> = Vec::new();
    for k in start..end
        invariant
            start <= end <= providers@.len(),
            r@ == providers@.subrange(start as int, k as int),
    {
        r.push(providers[k]);
        assert(r@ =~= providers@.subrange(start as int, k + 1));
    }
    r
}

/// The strip shows as many tabs as fit, or all of them when fewer exist.
pub proof fn lemma_viewport_size(offset: int, provider_count: int)
    requires
        0 <= offset,
        0 <= provider_count,
    ensures
        viewport_end(offset, provider_count) - clamped_viewport_offset(offset, provider_count) == if provider_count < PROVIDER_VIEWPORT_SIZE {
            provider_count
        } else {
            PROVIDER_VIEWPORT_SIZE as int
        },
{
}

} // verus!
