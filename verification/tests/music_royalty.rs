use soroban_playground::music_royalty::{
    Error, MusicRoyalty, Split, MAX_ROYALTY_RATE, MIN_LICENSE_DURATION, TOTAL_SHARE_BASIS_POINTS,
};

const HOUR: u64 = 3_600;
const ARTIST: u64 = 1;
const LICENSEE: u64 = 2;
const NOW: u64 = 50_000;

fn s(x: &str) -> Vec<u8> {
    x.as_bytes().to_vec()
}

fn setup() -> MusicRoyalty {
    let mut c = MusicRoyalty::new();
    c.initialize().unwrap();
    c
}

fn even_splits(n: u32) -> Vec<Split> {
    let share = TOTAL_SHARE_BASIS_POINTS / n;
    let mut allocated = 0;
    let mut splits = Vec::new();
    for i in 0..n {
        let sh = if i == n - 1 { TOTAL_SHARE_BASIS_POINTS - allocated } else { share };
        allocated += sh;
        splits.push(Split { account: 100 + i as u64, share: sh });
    }
    splits
}

fn register(c: &mut MusicRoyalty, id: &str) {
    c.register_song(ARTIST, s(id), s("Title"), even_splits(2)).unwrap();
}

fn licensed(c: &mut MusicRoyalty, duration: u64) {
    register(c, "s");
    c.issue_license(NOW, ARTIST, s("s"), LICENSEE, s("streaming"), 500, duration).unwrap();
}

#[test]
fn initialize_is_once_only() {
    let mut c = setup();
    assert_eq!(c.initialize(), Err(Error::AlreadyInitialized));
}

#[test]
fn registers_song_with_valid_splits() {
    let mut c = setup();
    register(&mut c, "song-1");
    let song = c.get_song_info(&s("song-1")).unwrap();
    assert_eq!(song.total_royalty_earned, 0);
    assert_eq!(song.splits.len(), 2);
}

#[test]
fn rejects_empty_split_table() {
    let mut c = setup();
    assert_eq!(c.register_song(ARTIST, s("s"), s("T"), vec![]), Err(Error::InvalidSplits));
}

#[test]
fn rejects_splits_that_do_not_total_100_percent() {
    let mut c = setup();
    let splits = vec![Split { account: 7, share: 5_000 }, Split { account: 8, share: 4_000 }];
    assert_eq!(c.register_song(ARTIST, s("s"), s("T"), splits), Err(Error::InvalidSplits));
}

#[test]
fn rejects_duplicate_split_accounts() {
    let mut c = setup();
    let splits = vec![Split { account: 7, share: 5_000 }, Split { account: 7, share: 5_000 }];
    assert_eq!(c.register_song(ARTIST, s("s"), s("T"), splits), Err(Error::DuplicateSplitAccount));
}

#[test]
fn rejects_zero_share_split() {
    let mut c = setup();
    let splits = vec![Split { account: 7, share: 10_000 }, Split { account: 8, share: 0 }];
    assert_eq!(c.register_song(ARTIST, s("s"), s("T"), splits), Err(Error::InvalidSplits));
}

#[test]
fn empty_song_id_reports_invalid_song_id_not_invalid_splits() {
    let mut c = setup();
    assert_eq!(
        c.register_song(ARTIST, s(""), s("T"), even_splits(2)),
        Err(Error::InvalidSongId),
        "a bad song id must not be reported as a split problem"
    );
}

#[test]
fn empty_title_reports_invalid_title_not_invalid_splits() {
    let mut c = setup();
    assert_eq!(c.register_song(ARTIST, s("s"), s(""), even_splits(2)), Err(Error::InvalidTitle));
}

#[test]
fn bad_royalty_rate_reports_invalid_royalty_rate() {
    let mut c = setup();
    register(&mut c, "s");
    assert_eq!(
        c.issue_license(NOW, ARTIST, s("s"), LICENSEE, s("streaming"), MAX_ROYALTY_RATE + 1, 24 * HOUR),
        Err(Error::InvalidRoyaltyRate)
    );
}

#[test]
fn bad_duration_reports_invalid_duration() {
    let mut c = setup();
    register(&mut c, "s");
    assert_eq!(
        c.issue_license(NOW, ARTIST, s("s"), LICENSEE, s("streaming"), 500, MIN_LICENSE_DURATION - 1),
        Err(Error::InvalidDuration)
    );
}

#[test]
fn empty_license_type_reports_invalid_license_type() {
    let mut c = setup();
    register(&mut c, "s");
    assert_eq!(
        c.issue_license(NOW, ARTIST, s("s"), LICENSEE, s(""), 500, 24 * HOUR),
        Err(Error::InvalidLicenseType)
    );
}

#[test]
fn missing_license_reports_license_not_found_not_song_not_found() {
    let mut c = setup();
    register(&mut c, "s");
    assert_eq!(c.record_usage(NOW, &s("s"), 99, 1, 100), Err(Error::LicenseNotFound));
}

#[test]
fn records_usage_and_accumulates_revenue() {
    let mut c = setup();
    licensed(&mut c, 24 * HOUR);
    c.record_usage(NOW, &s("s"), LICENSEE, 3, 1_000).unwrap();
    c.record_usage(NOW, &s("s"), LICENSEE, 2, 500).unwrap();
    let stats = c.get_usage_stats(&s("s"), LICENSEE).unwrap();
    assert_eq!(stats.usage_count, 5);
    assert_eq!(stats.total_paid, 1_500);
    let revenue = c.get_revenue_info(&s("s")).unwrap();
    assert_eq!(revenue.total_revenue, 1_500);
    assert_eq!(revenue.pending_distribution, 1_500);
}

#[test]
fn rejects_usage_on_expired_license() {
    let mut c = setup();
    licensed(&mut c, 2 * HOUR);
    assert_eq!(c.record_usage(NOW + 3 * HOUR, &s("s"), LICENSEE, 1, 100), Err(Error::Unauthorized));
}

#[test]
fn rejects_zero_usage_or_payment() {
    let mut c = setup();
    licensed(&mut c, 24 * HOUR);
    assert_eq!(c.record_usage(NOW, &s("s"), LICENSEE, 0, 100), Err(Error::ZeroAmount));
    assert_eq!(c.record_usage(NOW, &s("s"), LICENSEE, 1, 0), Err(Error::ZeroAmount));
}

#[test]
fn distributes_pending_revenue_and_resets_it() {
    let mut c = setup();
    licensed(&mut c, 24 * HOUR);
    c.record_usage(NOW, &s("s"), LICENSEE, 1, 2_000).unwrap();
    assert_eq!(c.distribute_royalties(NOW, &s("s")), Ok(2_000));
    let revenue = c.get_revenue_info(&s("s")).unwrap();
    assert_eq!(revenue.distributed_revenue, 2_000);
    assert_eq!(revenue.pending_distribution, 0, "pending must be cleared");
}

#[test]
fn rejects_distribution_with_nothing_pending() {
    let mut c = setup();
    licensed(&mut c, 24 * HOUR);
    assert_eq!(c.distribute_royalties(NOW, &s("s")), Err(Error::ZeroAmount));
}

#[test]
fn distribute_royalty_accumulates_lifetime_total() {
    let mut c = setup();
    register(&mut c, "s");
    c.distribute_royalty(&s("s"), 1_000).unwrap();
    c.distribute_royalty(&s("s"), 500).unwrap();
    assert_eq!(c.get_song_info(&s("s")).unwrap().total_royalty_earned, 1_500);
}

#[test]
fn rejects_unknown_song() {
    let mut c = setup();
    assert_eq!(c.distribute_royalty(&s("nope"), 100), Err(Error::SongNotFound));
    assert!(matches!(c.get_song_info(&s("nope")), Err(Error::SongNotFound)));
}

#[test]
fn revenue_total_is_distributed_plus_pending() {
    let mut c = setup();
    licensed(&mut c, 24 * HOUR);
    c.record_usage(NOW, &s("s"), LICENSEE, 1, 700).unwrap();
    c.distribute_royalties(NOW, &s("s")).unwrap();
    c.record_usage(NOW, &s("s"), LICENSEE, 1, 300).unwrap();
    let r = c.get_revenue_info(&s("s")).unwrap();
    assert_eq!((r.total_revenue, r.distributed_revenue, r.pending_distribution), (1_000, 700, 300));
    assert_eq!(r.total_revenue, r.distributed_revenue + r.pending_distribution);
}
