use vault::correlation::{
    CorrelationTag, COMPOUND_REPLY_ID, LOCK_ID, LOCK_SUPERFLUID_DELEGATE_ID, MINT_SHARES_REPLY_ID,
    REDELEGATE_ID, UNBOND_REPLY_ID,
};

fn all_tags() -> Vec<CorrelationTag> {
    vec![
        CorrelationTag::MintShares,
        CorrelationTag::Compound,
        CorrelationTag::LockSuperfluidDelegate,
        CorrelationTag::LockTokens,
        CorrelationTag::Unbond,
        CorrelationTag::Redelegate,
    ]
}

#[test]
fn tag_ids_are_the_six_small_integers() {
    assert_eq!(MINT_SHARES_REPLY_ID, 0);
    assert_eq!(COMPOUND_REPLY_ID, 1);
    assert_eq!(LOCK_SUPERFLUID_DELEGATE_ID, 2);
    assert_eq!(LOCK_ID, 3);
    assert_eq!(UNBOND_REPLY_ID, 4);
    assert_eq!(REDELEGATE_ID, 5);
    assert_eq!(CorrelationTag::MintShares.id(), 0);
    assert_eq!(CorrelationTag::Compound.id(), 1);
    assert_eq!(CorrelationTag::LockSuperfluidDelegate.id(), 2);
    assert_eq!(CorrelationTag::LockTokens.id(), 3);
    assert_eq!(CorrelationTag::Unbond.id(), 4);
    assert_eq!(CorrelationTag::Redelegate.id(), 5);
}

#[test]
fn every_emitted_tag_is_recognized() {
    for tag in all_tags() {
        assert_eq!(CorrelationTag::from_id(tag.id()), Some(tag));
    }
}

#[test]
fn integers_outside_the_set_stand_for_no_tag() {
    assert_eq!(CorrelationTag::from_id(6), None);
    assert_eq!(CorrelationTag::from_id(7), None);
    assert_eq!(CorrelationTag::from_id(1000), None);
    assert_eq!(CorrelationTag::from_id(u64::MAX), None);
}

#[test]
fn distinct_tags_have_distinct_ids() {
    let tags = all_tags();
    for (i, a) in tags.iter().enumerate() {
        for (j, b) in tags.iter().enumerate() {
            assert_eq!(a.id() == b.id(), i == j);
        }
    }
}
