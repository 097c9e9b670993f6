//! Music royalties: songs with revenue splits that total 100%, licences
//! with a royalty rate and an expiry, usage payments and their
//! distribution.
use vstd::prelude::*;
use crate::common::{write_index, written, Address, Text, text_eq, text_copy, first_match, is_first_match, lemma_first_match_is,
    lemma_first_match_none, lemma_first_match_some};

verus! {

pub const TOTAL_SHARE_BASIS_POINTS: u32 = 10000;
pub const MAX_SONG_ID_LENGTH: u32 = 100;
pub const MAX_TITLE_LENGTH: u32 = 200;
pub const MAX_LICENSE_TYPE_LENGTH: u32 = 50;
pub const MIN_ROYALTY_RATE: u32 = 0;
pub const MAX_ROYALTY_RATE: u32 = 10000;
pub const MIN_LICENSE_DURATION: u64 = 3600;
pub const MAX_LICENSE_DURATION: u64 = 315_360_000;

#[derive(Clone, Copy, Debug, PartialEq, Eq, Structural)]
pub enum Error {
    AlreadyInitialized,
    InvalidSongId,
    InvalidTitle,
    InvalidSplits,
    DuplicateSplitAccount,
    ZeroAmount,
    SongNotFound,
    LicenseNotFound,
    Unauthorized,
    Overflow,
    InvalidLicenseType,
    InvalidRoyaltyRate,
    InvalidDuration,
}

#[derive(Clone, Copy, Debug, PartialEq, Eq, Structural)]
pub struct Split {
    pub account: Address,
    pub share: u32,
}

#[derive(Debug)]
pub struct Song {
    pub id: Text,
    pub title: Text,
    pub artist: Address,
    pub splits: Vec<Split>,
    pub total_royalty_earned: i128,
}

#[derive(Debug)]
pub struct License {
    pub song_id: Text,
    pub licensee: Address,
    pub license_type: Text,
    pub royalty_rate: u32,
    pub active: bool,
    pub created_at: u64,
    pub expires_at: u64,
}

#[derive(Debug)]
pub struct RevenueShare {
    pub song_id: Text,
    pub total_revenue: i128,
    pub distributed_revenue: i128,
    pub pending_distribution: i128,
    pub last_distribution_timestamp: u64,
}

#[derive(Debug)]
pub struct UsageRecord {
    pub song_id: Text,
    pub licensee: Address,
    pub usage_count: u32,
    pub total_paid: i128,
    pub last_payment_timestamp: u64,
}

// ── Validation ──────────────────────────────────────────────────────────────

/// The split table checked entry by entry from index `i` with running total
/// `total`: each share must be in `1..=10000`, the running total must stay
/// within 10000, and an account must not occur again later in the table.
pub open spec fn check_splits_from(splits: Seq<Split>, i: int, total: int) -> Result<int, Error>
    decreases splits.len() - i,
{
    if i >= splits.len() || i < 0 {
        Ok(total)
    } else {
        let sh = splits[i].share;
        if sh == 0 || sh > TOTAL_SHARE_BASIS_POINTS {
            Err(Error::InvalidSplits)
        } else if total + sh > TOTAL_SHARE_BASIS_POINTS {
            Err(Error::InvalidSplits)
        } else if exists|j: int| i < j < splits.len() && splits[j].account == splits[i].account {
            Err(Error::DuplicateSplitAccount)
        } else {
            check_splits_from(splits, i + 1, total + sh)
        }
    }
}

proof fn lemma_check_splits_bound(splits: Seq<Split>, i: int, total: int)
    requires
        0 <= total <= TOTAL_SHARE_BASIS_POINTS,
    ensures
        check_splits_from(splits, i, total) matches Ok(t) ==> 0 <= t <= TOTAL_SHARE_BASIS_POINTS,
    decreases splits.len() - i,
{
    if 0 <= i < splits.len() {
        let sh = splits[i].share;
        if sh != 0 && sh <= TOTAL_SHARE_BASIS_POINTS && total + sh <= TOTAL_SHARE_BASIS_POINTS {
            lemma_check_splits_bound(splits, i + 1, total + sh);
        }
    }
}

/// The sum of the shares of a valid table, or why it is invalid.
pub open spec fn spec_validate_splits(splits: Seq<Split>) -> Result<int, Error> {
    if splits.len() == 0 {
        Err(Error::InvalidSplits)
    } else {
        check_splits_from(splits, 0, 0)
    }
}

pub fn validate_splits(splits: &Vec<Split>) -> (r: Result<u32, Error>)
    ensures
        match spec_validate_splits(splits@) {
            Ok(t) => r == Ok::<u32, Error>(t as u32),
            Err(e) => r == Err::<u32, Error>(e),
        },
{
    if splits.len() == 0 {
        return Err(Error::InvalidSplits);
    }
    let n = splits.len();
    let mut total: u32 = 0;
    let mut i: usize = 0;
    while i < n
        invariant
            n == splits@.len(),
            0 <= i <= n,
            total <= TOTAL_SHARE_BASIS_POINTS,
            check_splits_from(splits@, 0, 0) == check_splits_from(splits@, i as int, total as int),
        decreases n - i,
    {
        let split = splits[i];
        if split.share == 0 || split.share > TOTAL_SHARE_BASIS_POINTS {
            return Err(Error::InvalidSplits);
        }
        total = total + split.share;
        if total > TOTAL_SHARE_BASIS_POINTS {
            return Err(Error::InvalidSplits);
        }
        let mut j: usize = i + 1;
        let mut dup = false;
        while j < n
            invariant_except_break
                !dup,
            invariant
                n == splits@.len(),
                0 <= i < n,
                split == splits@[i as int],
                i + 1 <= j <= n,
                forall|b: int| i < b < j ==> splits@[b].account != split.account,
            ensures
                dup ==> i < j < n && splits@[j as int].account == split.account,
                !dup ==> forall|b: int| i < b < n ==> splits@[b].account != split.account,
            decreases n - j,
        {
            if split.account == splits[j].account {
                dup = true;
                break;
            }
            j = j + 1;
        }
        if dup {
            return Err(Error::DuplicateSplitAccount);
        }
        i = i + 1;
    }
    Ok(total)
}

/// The licence parameters accepted by `issue_license`, or why not.
pub open spec fn spec_license_params_error(license_type_len: int, royalty_rate: u32, duration_seconds: u64) -> Option<Error> {
    if license_type_len == 0 || license_type_len > MAX_LICENSE_TYPE_LENGTH {
        Some(Error::InvalidLicenseType)
    } else if !(MIN_ROYALTY_RATE <= royalty_rate <= MAX_ROYALTY_RATE) {
        Some(Error::InvalidRoyaltyRate)
    } else if !(MIN_LICENSE_DURATION <= duration_seconds <= MAX_LICENSE_DURATION) {
        Some(Error::InvalidDuration)
    } else {
        None
    }
}

pub fn validate_license_params(license_type: &Text, royalty_rate: u32, duration_seconds: u64) -> (r: Result<(), Error>)
    ensures
        match spec_license_params_error(license_type@.len() as int, royalty_rate, duration_seconds) {
            Some(e) => r == Err::<(), Error>(e),
            None => r is Ok,
        },
{
    if license_type.len() == 0 || license_type.len() > MAX_LICENSE_TYPE_LENGTH as usize {
        return Err(Error::InvalidLicenseType);
    }
    if !(MIN_ROYALTY_RATE <= royalty_rate && royalty_rate <= MAX_ROYALTY_RATE) {
        return Err(Error::InvalidRoyaltyRate);
    }
    if !(MIN_LICENSE_DURATION <= duration_seconds && duration_seconds <= MAX_LICENSE_DURATION) {
        return Err(Error::InvalidDuration);
    }
    Ok(())
}

/// A licence is usable while active and not past its expiry.
pub open spec fn spec_license_active(license: &License, current_time: u64) -> bool {
    license.active && current_time <= license.expires_at
}

pub fn is_license_active(license: &License, current_time: u64) -> (b: bool)
    ensures
        b == spec_license_active(license, current_time),
{
    license.active && current_time <= license.expires_at
}

// ── Storage ─────────────────────────────────────────────────────────────────

pub open spec fn song_key(id: Seq<u8>) -> spec_fn(Song) -> bool {
    |s: Song| s.id@ == id
}

pub open spec fn share_key(id: Seq<u8>) -> spec_fn(RevenueShare) -> bool {
    |s: RevenueShare| s.song_id@ == id
}

pub open spec fn license_key(id: Seq<u8>, who: Address) -> spec_fn(License) -> bool {
    |l: License| l.song_id@ == id && l.licensee == who
}

pub open spec fn usage_key(id: Seq<u8>, who: Address) -> spec_fn(UsageRecord) -> bool {
    |u: UsageRecord| u.song_id@ == id && u.licensee == who
}

/// The persistent storage of the royalty contract.  Each table is keyed by
/// the listed fields; a write replaces the first entry with the key or
/// appends one.
pub struct MusicRoyalty {
    pub initialized: bool,
    pub songs: Vec<Song>,
    pub licenses: Vec<License>,
    pub revenue: Vec<RevenueShare>,
    pub usage: Vec<UsageRecord>,
}

impl MusicRoyalty {
    pub open spec fn song_at(&self, id: Seq<u8>) -> Option<int> {
        first_match(self.songs@, song_key(id))
    }

    /// Every revenue account has its total split into what was distributed
    /// and what is pending.
    pub open spec fn revenue_balanced(&self) -> bool {
        forall|k: int|
            0 <= k < self.revenue@.len() ==> #[trigger] self.revenue@[k].total_revenue == self.revenue@[k].distributed_revenue
                + self.revenue@[k].pending_distribution
    }

    pub open spec fn share_at(&self, id: Seq<u8>) -> Option<int> {
        first_match(self.revenue@, share_key(id))
    }

    pub open spec fn license_at(&self, id: Seq<u8>, who: Address) -> Option<int> {
        first_match(self.licenses@, license_key(id, who))
    }

    pub open spec fn usage_at(&self, id: Seq<u8>, who: Address) -> Option<int> {
        first_match(self.usage@, usage_key(id, who))
    }

    /// Empty storage.
    pub fn new() -> (s: Self)
        ensures
            !s.initialized,
            s.songs@.len() == 0,
            s.licenses@.len() == 0,
            s.revenue@.len() == 0,
            s.revenue_balanced(),
            s.usage@.len() == 0,
    {
        MusicRoyalty { initialized: false, songs: Vec::new(), licenses: Vec::new(), revenue: Vec::new(), usage: Vec::new() }
    }

    fn find_song(&self, id: &Text) -> (r: Option<usize>)
        ensures
            match r {
                Some(i) => self.song_at(id@) == Some(i as int) && i < self.songs@.len(),
                None => self.song_at(id@) is None,
            },
    {
        let mut i: usize = 0;
        while i < self.songs.len()
            invariant
                0 <= i <= self.songs@.len(),
                forall|k: int| 0 <= k < i ==> !song_key(id@)(self.songs@[k]),
            decreases self.songs@.len() - i,
        {
            if text_eq(&self.songs[i].id, id) {
                proof {
                    assert(is_first_match(self.songs@, song_key(id@), i as int));
                    lemma_first_match_is(self.songs@, song_key(id@), i as int);
                }
                return Some(i);
            }
            i = i + 1;
        }
        proof {
            lemma_first_match_none(self.songs@, song_key(id@));
        }
        None
    }

    fn find_share(&self, id: &Text) -> (r: Option<usize>)
        ensures
            match r {
                Some(i) => self.share_at(id@) == Some(i as int) && i < self.revenue@.len(),
                None => self.share_at(id@) is None,
            },
    {
        let mut i: usize = 0;
        while i < self.revenue.len()
            invariant
                0 <= i <= self.revenue@.len(),
                forall|k: int| 0 <= k < i ==> !share_key(id@)(self.revenue@[k]),
            decreases self.revenue@.len() - i,
        {
            if text_eq(&self.revenue[i].song_id, id) {
                proof {
                    assert(is_first_match(self.revenue@, share_key(id@), i as int));
                    lemma_first_match_is(self.revenue@, share_key(id@), i as int);
                }
                return Some(i);
            }
            i = i + 1;
        }
        proof {
            lemma_first_match_none(self.revenue@, share_key(id@));
        }
        None
    }

    fn find_license(&self, id: &Text, who: Address) -> (r: Option<usize>)
        ensures
            match r {
                Some(i) => self.license_at(id@, who) == Some(i as int) && i < self.licenses@.len(),
                None => self.license_at(id@, who) is None,
            },
    {
        let mut i: usize = 0;
        while i < self.licenses.len()
            invariant
                0 <= i <= self.licenses@.len(),
                forall|k: int| 0 <= k < i ==> !license_key(id@, who)(self.licenses@[k]),
            decreases self.licenses@.len() - i,
        {
            if self.licenses[i].licensee == who && text_eq(&self.licenses[i].song_id, id) {
                proof {
                    assert(is_first_match(self.licenses@, license_key(id@, who), i as int));
                    lemma_first_match_is(self.licenses@, license_key(id@, who), i as int);
                }
                return Some(i);
            }
            i = i + 1;
        }
        proof {
            lemma_first_match_none(self.licenses@, license_key(id@, who));
        }
        None
    }

    fn find_usage(&self, id: &Text, who: Address) -> (r: Option<usize>)
        ensures
            match r {
                Some(i) => self.usage_at(id@, who) == Some(i as int) && i < self.usage@.len(),
                None => self.usage_at(id@, who) is None,
            },
    {
        let mut i: usize = 0;
        while i < self.usage.len()
            invariant
                0 <= i <= self.usage@.len(),
                forall|k: int| 0 <= k < i ==> !usage_key(id@, who)(self.usage@[k]),
            decreases self.usage@.len() - i,
        {
            if self.usage[i].licensee == who && text_eq(&self.usage[i].song_id, id) {
                proof {
                    assert(is_first_match(self.usage@, usage_key(id@, who), i as int));
                    lemma_first_match_is(self.usage@, usage_key(id@, who), i as int);
                }
                return Some(i);
            }
            i = i + 1;
        }
        proof {
            lemma_first_match_none(self.usage@, usage_key(id@, who));
        }
        None
    }

    /// Mark the contract initialised, once.
    pub fn initialize(&mut self) -> (r: Result<(), Error>)
        ensures
            old(self).initialized ==> r == Err::<(), Error>(Error::AlreadyInitialized) && *final(self) == *old(self),
            !old(self).initialized ==> r is Ok && *final(self) == (MusicRoyalty { initialized: true, ..*old(self) }),
    {
        if self.initialized {
            return Err(Error::AlreadyInitialized);
        }
        self.initialized = true;
        Ok(())
    }

    /// Why `register_song` fails, if it does.
    pub open spec fn register_song_error(id: Seq<u8>, title: Seq<u8>, splits: Seq<Split>) -> Option<Error> {
        if id.len() == 0 || id.len() > MAX_SONG_ID_LENGTH {
            Some(Error::InvalidSongId)
        } else if title.len() == 0 || title.len() > MAX_TITLE_LENGTH {
            Some(Error::InvalidTitle)
        } else {
            match spec_validate_splits(splits) {
                Err(e) => Some(e),
                Ok(t) => if t != TOTAL_SHARE_BASIS_POINTS {
                    Some(Error::InvalidSplits)
                } else {
                    None
                },
            }
        }
    }

    /// Register (or re-register, resetting its earnings) a song whose split
    /// table totals exactly 100%; the artist signs.
    pub fn register_song(&mut self, artist: Address, id: Text, title: Text, splits: Vec<Split>) -> (r: Result<(), Error>)
        ensures
            match Self::register_song_error(id@, title@, splits@) {
                Some(e) => r == Err::<(), Error>(e) && *final(self) == *old(self),
                None => {
                    let at = old(self).song_at(id@);
                    let k = write_index(at, old(self).songs@.len() as int);
                    let s = final(self).songs@[k];
                    &&& r is Ok
                    &&& final(self).songs@.len() == written(old(self).songs@, at, s).len()
                    &&& final(self).songs@ == written(old(self).songs@, at, s)
                    &&& s.id@ == id@ && s.title@ == title@ && s.artist == artist && s.splits@ == splits@
                    &&& s.total_royalty_earned == 0
                    &&& final(self).licenses@ == old(self).licenses@
                    &&& final(self).revenue@ == old(self).revenue@
                    &&& final(self).usage@ == old(self).usage@
                    &&& final(self).initialized == old(self).initialized
                },
            },
    {
        if id.len() == 0 || id.len() > MAX_SONG_ID_LENGTH as usize {
            return Err(Error::InvalidSongId);
        }
        if title.len() == 0 || title.len() > MAX_TITLE_LENGTH as usize {
            return Err(Error::InvalidTitle);
        }
        proof {
            lemma_check_splits_bound(splits@, 0, 0);
        }
        let total_share = validate_splits(&splits)?;
        if total_share != TOTAL_SHARE_BASIS_POINTS {
            return Err(Error::InvalidSplits);
        }
        let at = self.find_song(&id);
        let song = Song { id, title, artist, splits, total_royalty_earned: 0 };
        match at {
            Some(i) => {
                self.songs.remove(i);
                self.songs.insert(i, song);
                proof {
                    assert(self.songs@ =~= old(self).songs@.update(i as int, self.songs@[i as int]));
                }
            },
            None => {
                self.songs.push(song);
            },
        }
        Ok(())
    }

    /// Why `distribute_royalty` fails, if it does.
    pub open spec fn distribute_royalty_error(&self, song_id: Seq<u8>, amount: i128) -> Option<Error> {
        if amount <= 0 {
            Some(Error::ZeroAmount)
        } else if self.song_at(song_id) is None {
            Some(Error::SongNotFound)
        } else if self.songs@[self.song_at(song_id).unwrap()].total_royalty_earned + amount > i128::MAX {
            Some(Error::Overflow)
        } else {
            None
        }
    }

    /// Add `amount` to a song's lifetime royalty total.
    pub fn distribute_royalty(&mut self, song_id: &Text, amount: i128) -> (r: Result<(), Error>)
        ensures
            match old(self).distribute_royalty_error(song_id@, amount) {
                Some(e) => r == Err::<(), Error>(e) && *final(self) == *old(self),
                None => {
                    let i = old(self).song_at(song_id@).unwrap();
                    let o = old(self).songs@[i];
                    let s = final(self).songs@[i];
                    &&& r is Ok
                    &&& final(self).songs@ == old(self).songs@.update(i, s)
                    &&& s.id == o.id && s.title == o.title && s.artist == o.artist && s.splits == o.splits
                    &&& s.total_royalty_earned == o.total_royalty_earned + amount
                    &&& final(self).licenses@ == old(self).licenses@
                    &&& final(self).revenue@ == old(self).revenue@
                    &&& final(self).usage@ == old(self).usage@
                    &&& final(self).initialized == old(self).initialized
                },
            },
    {
        if amount <= 0 {
            return Err(Error::ZeroAmount);
        }
        let i = match self.find_song(song_id) {
            Some(i) => i,
            None => return Err(Error::SongNotFound),
        };
        proof {
            lemma_first_match_some(self.songs@, song_key(song_id@));
        }
        let total = match self.songs[i].total_royalty_earned.checked_add(amount) {
            Some(v) => v,
            None => return Err(Error::Overflow),
        };
        let old_song = self.songs.remove(i);
        let song = Song {
            id: old_song.id,
            title: old_song.title,
            artist: old_song.artist,
            splits: old_song.splits,
            total_royalty_earned: total,
        };
        self.songs.insert(i, song);
        proof {
            assert(self.songs@ =~= old(self).songs@.update(i as int, self.songs@[i as int]));
        }
        Ok(())
    }

    pub fn get_song_info(&self, song_id: &Text) -> (r: Result<&Song, Error>)
        ensures
            match self.song_at(song_id@) {
                Some(i) => r is Ok && *r->Ok_0 == self.songs@[i],
                None => r is Err && r->Err_0 == Error::SongNotFound,
            },
    {
        match self.find_song(song_id) {
            Some(i) => Ok(&self.songs[i]),
            None => Err(Error::SongNotFound),
        }
    }

    /// Why `issue_license` fails, if it does.
    pub open spec fn issue_license_error(
        &self,
        now: u64,
        song_id: Seq<u8>,
        license_type: Seq<u8>,
        royalty_rate: u32,
        duration_seconds: u64,
    ) -> Option<Error> {
        if self.song_at(song_id) is None {
            Some(Error::SongNotFound)
        } else {
            match spec_license_params_error(license_type.len() as int, royalty_rate, duration_seconds) {
                Some(e) => Some(e),
                None => if now + duration_seconds > u64::MAX {
                    Some(Error::Overflow)
                } else {
                    None
                },
            }
        }
    }

    /// Grant (or replace) a licence for a song; the first licence of a song
    /// opens its revenue account.
    pub fn issue_license(
        &mut self,
        now: u64,
        artist: Address,
        song_id: Text,
        licensee: Address,
        license_type: Text,
        royalty_rate: u32,
        duration_seconds: u64,
    ) -> (r: Result<(), Error>)
        ensures
            old(self).revenue_balanced() ==> final(self).revenue_balanced(),
            match old(self).issue_license_error(now, song_id@, license_type@, royalty_rate, duration_seconds) {
                Some(e) => r == Err::<(), Error>(e) && *final(self) == *old(self),
                None => {
                    let at = old(self).license_at(song_id@, licensee);
                    let k = write_index(at, old(self).licenses@.len() as int);
                    let l = final(self).licenses@[k];
                    &&& r is Ok
                    &&& final(self).licenses@ == written(old(self).licenses@, at, l)
                    &&& l.song_id@ == song_id@ && l.licensee == licensee && l.license_type@ == license_type@
                    &&& l.royalty_rate == royalty_rate && l.active && l.created_at == now
                    &&& l.expires_at == now + duration_seconds
                    &&& if old(self).share_at(song_id@) is Some {
                        final(self).revenue@ == old(self).revenue@
                    } else {
                        let sh = final(self).revenue@.last();
                        &&& final(self).revenue@ == old(self).revenue@.push(sh)
                        &&& sh.song_id@ == song_id@ && sh.total_revenue == 0 && sh.distributed_revenue == 0
                        &&& sh.pending_distribution == 0 && sh.last_distribution_timestamp == now
                    }
                    &&& final(self).songs@ == old(self).songs@
                    &&& final(self).usage@ == old(self).usage@
                    &&& final(self).initialized == old(self).initialized
                },
            },
    {
        if self.find_song(&song_id).is_none() {
            return Err(Error::SongNotFound);
        }
        validate_license_params(&license_type, royalty_rate, duration_seconds)?;
        let expires_at = match now.checked_add(duration_seconds) {
            Some(v) => v,
            None => return Err(Error::Overflow),
        };
        let share_missing = self.find_share(&song_id).is_none();
        let sid = text_copy(&song_id);
        let at = self.find_license(&song_id, licensee);
        let license = License {
            song_id,
            licensee,
            license_type,
            royalty_rate,
            active: true,
            created_at: now,
            expires_at,
        };
        match at {
            Some(i) => {
                self.licenses.remove(i);
                self.licenses.insert(i, license);
                proof {
                    assert(self.licenses@ =~= old(self).licenses@.update(i as int, self.licenses@[i as int]));
                }
            },
            None => {
                self.licenses.push(license);
            },
        }
        if share_missing {
            self.revenue.push(RevenueShare {
                song_id: sid,
                total_revenue: 0,
                distributed_revenue: 0,
                pending_distribution: 0,
                last_distribution_timestamp: now,
            });
        }
        Ok(())
    }

    /// Why `record_usage` fails, if it does.
    pub open spec fn record_usage_error(&self, now: u64, song_id: Seq<u8>, licensee: Address, usage_count: u32, payment_amount: i128) -> Option<Error> {
        if usage_count == 0 || payment_amount <= 0 {
            Some(Error::ZeroAmount)
        } else if self.license_at(song_id, licensee) is None {
            Some(Error::LicenseNotFound)
        } else if !spec_license_active(&self.licenses@[self.license_at(song_id, licensee).unwrap()], now) {
            Some(Error::Unauthorized)
        } else {
            let (count, paid) = match self.usage_at(song_id, licensee) {
                Some(u) => (self.usage@[u].usage_count as int, self.usage@[u].total_paid as int),
                None => (0int, 0int),
            };
            if count + usage_count > u32::MAX || paid + payment_amount > i128::MAX {
                Some(Error::Overflow)
            } else {
                match self.share_at(song_id) {
                    None => None,
                    Some(k) => if self.revenue@[k].total_revenue + payment_amount > i128::MAX
                        || self.revenue@[k].pending_distribution + payment_amount > i128::MAX {
                        Some(Error::Overflow)
                    } else {
                        None
                    },
                }
            }
        }
    }

    /// A licensee with an active licence records `usage_count` uses and a
    /// payment; its usage record and the song's revenue account (if open)
    /// grow accordingly.
    pub fn record_usage(&mut self, now: u64, song_id: &Text, licensee: Address, usage_count: u32, payment_amount: i128) -> (r: Result<(), Error>)
        ensures
            old(self).revenue_balanced() ==> final(self).revenue_balanced(),
            match old(self).record_usage_error(now, song_id@, licensee, usage_count, payment_amount) {
                Some(e) => r == Err::<(), Error>(e) && *final(self) == *old(self),
                None => {
                    let at = old(self).usage_at(song_id@, licensee);
                    let k = write_index(at, old(self).usage@.len() as int);
                    let u = final(self).usage@[k];
                    let (count, paid) = match at {
                        Some(j) => (old(self).usage@[j].usage_count as int, old(self).usage@[j].total_paid as int),
                        None => (0int, 0int),
                    };
                    &&& r is Ok
                    &&& final(self).usage@ == written(old(self).usage@, at, u)
                    &&& u.song_id@ == song_id@ && u.licensee == licensee
                    &&& u.usage_count == count + usage_count && u.total_paid == paid + payment_amount
                    &&& u.last_payment_timestamp == now
                    &&& match old(self).share_at(song_id@) {
                        None => final(self).revenue@ == old(self).revenue@,
                        Some(j) => {
                            let o = old(self).revenue@[j];
                            let n = final(self).revenue@[j];
                            &&& final(self).revenue@ == old(self).revenue@.update(j, n)
                            &&& n.song_id == o.song_id && n.distributed_revenue == o.distributed_revenue
                            &&& n.last_distribution_timestamp == o.last_distribution_timestamp
                            &&& n.total_revenue == o.total_revenue + payment_amount
                            &&& n.pending_distribution == o.pending_distribution + payment_amount
                        },
                    }
                    &&& final(self).songs@ == old(self).songs@
                    &&& final(self).licenses@ == old(self).licenses@
                    &&& final(self).initialized == old(self).initialized
                },
            },
    {
        if usage_count == 0 || payment_amount <= 0 {
            return Err(Error::ZeroAmount);
        }
        let li = match self.find_license(song_id, licensee) {
            Some(i) => i,
            None => return Err(Error::LicenseNotFound),
        };
        if !is_license_active(&self.licenses[li], now) {
            return Err(Error::Unauthorized);
        }
        let at = self.find_usage(song_id, licensee);
        let (count, paid) = match at {
            Some(j) => (self.usage[j].usage_count, self.usage[j].total_paid),
            None => (0u32, 0i128),
        };
        let new_count = match count.checked_add(usage_count) {
            Some(v) => v,
            None => return Err(Error::Overflow),
        };
        let new_paid = match paid.checked_add(payment_amount) {
            Some(v) => v,
            None => return Err(Error::Overflow),
        };
        let sh = self.find_share(song_id);
        let mut new_share: Option<(usize, i128, i128)> = None;
        match sh {
            Some(k) => {
                let tr = match self.revenue[k].total_revenue.checked_add(payment_amount) {
                    Some(v) => v,
                    None => return Err(Error::Overflow),
                };
                let pd = match self.revenue[k].pending_distribution.checked_add(payment_amount) {
                    Some(v) => v,
                    None => return Err(Error::Overflow),
                };
                new_share = Some((k, tr, pd));
            },
            None => {},
        }
        let record = UsageRecord {
            song_id: text_copy(song_id),
            licensee,
            usage_count: new_count,
            total_paid: new_paid,
            last_payment_timestamp: now,
        };
        match at {
            Some(j) => {
                self.usage.remove(j);
                self.usage.insert(j, record);
                proof {
                    assert(self.usage@ =~= old(self).usage@.update(j as int, self.usage@[j as int]));
                }
            },
            None => {
                self.usage.push(record);
            },
        }
        match new_share {
            Some((k, tr, pd)) => {
                let o = self.revenue.remove(k);
                self.revenue.insert(k, RevenueShare {
                    song_id: o.song_id,
                    total_revenue: tr,
                    distributed_revenue: o.distributed_revenue,
                    pending_distribution: pd,
                    last_distribution_timestamp: o.last_distribution_timestamp,
                });
                proof {
                    assert(self.revenue@ =~= old(self).revenue@.update(k as int, self.revenue@[k as int]));
                }
            },
            None => {},
        }
        Ok(())
    }

    /// Why `distribute_royalties` fails, if it does.
    pub open spec fn distribute_royalties_error(&self, song_id: Seq<u8>) -> Option<Error> {
        if self.song_at(song_id) is None || self.share_at(song_id) is None {
            Some(Error::SongNotFound)
        } else {
            let sh = self.revenue@[self.share_at(song_id).unwrap()];
            if sh.pending_distribution <= 0 {
                Some(Error::ZeroAmount)
            } else if sh.distributed_revenue + sh.pending_distribution > i128::MAX {
                Some(Error::Overflow)
            } else {
                None
            }
        }
    }

    /// Move a song's pending revenue to distributed; returns the amount.
    pub fn distribute_royalties(&mut self, now: u64, song_id: &Text) -> (r: Result<i128, Error>)
        ensures
            old(self).revenue_balanced() ==> final(self).revenue_balanced(),
            match old(self).distribute_royalties_error(song_id@) {
                Some(e) => r == Err::<i128, Error>(e) && *final(self) == *old(self),
                None => {
                    let j = old(self).share_at(song_id@).unwrap();
                    let o = old(self).revenue@[j];
                    let n = final(self).revenue@[j];
                    &&& r == Ok::<i128, Error>(o.pending_distribution)
                    &&& final(self).revenue@ == old(self).revenue@.update(j, n)
                    &&& n.song_id == o.song_id && n.total_revenue == o.total_revenue
                    &&& n.distributed_revenue == o.distributed_revenue + o.pending_distribution
                    &&& n.pending_distribution == 0 && n.last_distribution_timestamp == now
                    &&& final(self).songs@ == old(self).songs@
                    &&& final(self).licenses@ == old(self).licenses@
                    &&& final(self).usage@ == old(self).usage@
                    &&& final(self).initialized == old(self).initialized
                },
            },
    {
        if self.find_song(song_id).is_none() {
            return Err(Error::SongNotFound);
        }
        let k = match self.find_share(song_id) {
            Some(k) => k,
            None => return Err(Error::SongNotFound),
        };
        let pending = self.revenue[k].pending_distribution;
        if pending <= 0 {
            return Err(Error::ZeroAmount);
        }
        let distributed = match self.revenue[k].distributed_revenue.checked_add(pending) {
            Some(v) => v,
            None => return Err(Error::Overflow),
        };
        let o = self.revenue.remove(k);
        self.revenue.insert(k, RevenueShare {
            song_id: o.song_id,
            total_revenue: o.total_revenue,
            distributed_revenue: distributed,
            pending_distribution: 0,
            last_distribution_timestamp: now,
        });
        proof {
            assert(self.revenue@ =~= old(self).revenue@.update(k as int, self.revenue@[k as int]));
        }
        Ok(pending)
    }

    pub fn get_usage_stats(&self, song_id: &Text, licensee: Address) -> (r: Result<&UsageRecord, Error>)
        ensures
            match self.usage_at(song_id@, licensee) {
                Some(i) => r is Ok && *r->Ok_0 == self.usage@[i],
                None => r is Err && r->Err_0 == Error::SongNotFound,
            },
    {
        match self.find_usage(song_id, licensee) {
            Some(i) => Ok(&self.usage[i]),
            None => Err(Error::SongNotFound),
        }
    }

    pub fn get_revenue_info(&self, song_id: &Text) -> (r: Result<&RevenueShare, Error>)
        ensures
            match self.share_at(song_id@) {
                Some(i) => r is Ok && *r->Ok_0 == self.revenue@[i],
                None => r is Err && r->Err_0 == Error::SongNotFound,
            },
    {
        match self.find_share(song_id) {
            Some(i) => Ok(&self.revenue[i]),
            None => Err(Error::SongNotFound),
        }
    }

    pub fn get_license_info(&self, song_id: &Text, licensee: Address) -> (r: Result<&License, Error>)
        ensures
            match self.license_at(song_id@, licensee) {
                Some(i) => r is Ok && *r->Ok_0 == self.licenses@[i],
                None => r is Err && r->Err_0 == Error::LicenseNotFound,
            },
    {
        match self.find_license(song_id, licensee) {
            Some(i) => Ok(&self.licenses[i]),
            None => Err(Error::LicenseNotFound),
        }
    }
}

} // verus!
