use soroban_playground::payment_splitter::{Error, PaymentSplitter, MAX_RECIPIENTS};

fn addresses(first: u64, n: u32) -> Vec<u64> {
    (0..n as u64).map(|i| first + i).collect()
}

#[test]
fn splits_evenly_when_divisible() {
    let shares = PaymentSplitter::preview_split(100, &addresses(10, 4)).unwrap();
    assert_eq!(shares, vec![25, 25, 25, 25]);
}

#[test]
fn distributes_remainder_instead_of_dropping_it() {
    let shares = PaymentSplitter::preview_split(100, &addresses(10, 3)).unwrap();
    assert_eq!(shares, vec![34, 33, 33]);
    assert_eq!(shares.iter().sum::<i128>(), 100, "no value may be lost");
}

#[test]
fn conserves_value_for_every_remainder() {
    let recipients = addresses(10, 7);
    for amount in 7..=64i128 {
        let shares = PaymentSplitter::preview_split(amount, &recipients).unwrap();
        assert_eq!(shares.iter().sum::<i128>(), amount, "split of {amount} did not conserve value");
        let min = shares.iter().min().unwrap();
        let max = shares.iter().max().unwrap();
        assert!(max - min <= 1, "shares for {amount} differ by more than one unit");
    }
}

#[test]
fn single_recipient_receives_everything() {
    assert_eq!(PaymentSplitter::preview_split(999, &addresses(10, 1)), Ok(vec![999]));
}

#[test]
fn smallest_valid_amount_gives_each_recipient_one_unit() {
    assert_eq!(PaymentSplitter::preview_split(5, &addresses(10, 5)), Ok(vec![1, 1, 1, 1, 1]));
}

#[test]
fn rejects_zero_amount() {
    assert_eq!(PaymentSplitter::preview_split(0, &addresses(10, 2)), Err(Error::ZeroAmount));
}

#[test]
fn rejects_negative_amount() {
    assert_eq!(PaymentSplitter::preview_split(-1, &addresses(10, 2)), Err(Error::ZeroAmount));
}

#[test]
fn rejects_empty_recipient_list() {
    assert_eq!(PaymentSplitter::preview_split(100, &vec![]), Err(Error::NoRecipients));
}

#[test]
fn rejects_more_than_max_recipients() {
    assert_eq!(
        PaymentSplitter::preview_split(1_000_000, &addresses(10, MAX_RECIPIENTS + 1)),
        Err(Error::TooManyRecipients)
    );
}

#[test]
fn accepts_exactly_max_recipients() {
    let shares = PaymentSplitter::preview_split(1_000_000, &addresses(10, MAX_RECIPIENTS)).unwrap();
    assert_eq!(shares.len(), MAX_RECIPIENTS as usize);
    assert_eq!(shares.iter().sum::<i128>(), 1_000_000);
}

#[test]
fn rejects_duplicate_recipients() {
    let recipients = vec![7, 8, 7];
    assert_eq!(PaymentSplitter::preview_split(300, &recipients), Err(Error::DuplicateRecipient));
}

#[test]
fn rejects_amount_smaller_than_recipient_count() {
    assert_eq!(PaymentSplitter::preview_split(9, &addresses(10, 10)), Err(Error::AmountTooSmall));
}

#[test]
fn validation_order_reports_amount_before_recipients() {
    assert_eq!(PaymentSplitter::preview_split(0, &vec![]), Err(Error::ZeroAmount));
}

#[test]
fn rejects_payer_listed_as_recipient() {
    let payer = 1;
    assert_eq!(PaymentSplitter::split(payer, 100, &vec![2, payer]), Err(Error::PayerIsRecipient));
}

#[test]
fn split_validates_before_requiring_auth() {
    assert_eq!(PaymentSplitter::split(1, 0, &addresses(10, 2)), Err(Error::ZeroAmount));
}

#[test]
fn split_returns_each_recipients_share() {
    assert_eq!(PaymentSplitter::split(1, 10, &vec![2, 3, 4]), Ok(vec![4, 3, 3]));
}
