use whitelist::set_pending;
use whitelist::toggle_period;
use whitelist::Data;
use whitelist::PeriodStatus;

#[test]
fn tags_are_zero_one_two() {
    assert_eq!(PeriodStatus::PendingSale.tag(), 0);
    assert_eq!(PeriodStatus::PreSale.tag(), 1);
    assert_eq!(PeriodStatus::PostSale.tag(), 2);
}

#[test]
fn tags_agree_with_the_enum_cast() {
    assert_eq!(PeriodStatus::PendingSale as u8, PeriodStatus::PendingSale.tag());
    assert_eq!(PeriodStatus::PreSale as u8, PeriodStatus::PreSale.tag());
    assert_eq!(PeriodStatus::PostSale as u8, PeriodStatus::PostSale.tag());
}

#[test]
fn from_tag_knows_three_tags() {
    assert_eq!(PeriodStatus::from_tag(0), Some(PeriodStatus::PendingSale));
    assert_eq!(PeriodStatus::from_tag(1), Some(PeriodStatus::PreSale));
    assert_eq!(PeriodStatus::from_tag(2), Some(PeriodStatus::PostSale));
    for tag in 3..=255u8 {
        assert_eq!(PeriodStatus::from_tag(tag), None);
    }
}

#[test]
fn from_tag_undoes_tag() {
    for status in [PeriodStatus::PendingSale, PeriodStatus::PreSale, PeriodStatus::PostSale] {
        assert_eq!(PeriodStatus::from_tag(status.tag()), Some(status));
    }
}

#[test]
fn toggled_follows_the_table() {
    assert_eq!(PeriodStatus::PendingSale.toggled(), PeriodStatus::PreSale);
    assert_eq!(PeriodStatus::PreSale.toggled(), PeriodStatus::PostSale);
    assert_eq!(PeriodStatus::PostSale.toggled(), PeriodStatus::PreSale);
}

#[test]
fn toggle_twice_from_pre_sale_returns_to_pre_sale() {
    let mut data = Data { period_status: PeriodStatus::PreSale.tag(), counter: 4 };
    toggle_period(&mut data);
    assert_eq!(data, Data { period_status: 2, counter: 4 });
    toggle_period(&mut data);
    assert_eq!(data, Data { period_status: 1, counter: 4 });
}

#[test]
fn toggle_from_pending_opens_the_pre_sale() {
    let mut data = Data { period_status: PeriodStatus::PendingSale.tag(), counter: 0 };
    toggle_period(&mut data);
    assert_eq!(data, Data { period_status: 1, counter: 0 });
}

#[test]
fn toggle_never_reaches_pending() {
    for tag in 0..=255u8 {
        let mut data = Data { period_status: tag, counter: 9 };
        for _ in 0..5 {
            toggle_period(&mut data);
            assert_ne!(data.period_status, 0);
            assert_eq!(data.counter, 9);
        }
    }
}

#[test]
fn toggle_cycles_without_end() {
    let mut data = Data { period_status: 0, counter: 1 };
    let mut seen = Vec::new();
    for _ in 0..7 {
        toggle_period(&mut data);
        seen.push(data.period_status);
    }
    assert_eq!(seen, vec![1, 2, 1, 2, 1, 2, 1]);
}

#[test]
fn toggle_leaves_an_unknown_tag_alone() {
    for tag in 3..=255u8 {
        let mut data = Data { period_status: tag, counter: 12 };
        toggle_period(&mut data);
        assert_eq!(data, Data { period_status: tag, counter: 12 });
    }
}

#[test]
fn set_pending_overrides_every_state() {
    for tag in 0..=255u8 {
        let mut data = Data { period_status: tag, counter: 33 };
        set_pending(&mut data);
        assert_eq!(data, Data { period_status: 0, counter: 33 });
        toggle_period(&mut data);
        assert_eq!(data, Data { period_status: 1, counter: 33 });
    }
}

#[test]
fn set_pending_twice_is_set_pending_once() {
    let mut once = Data { period_status: 2, counter: 5 };
    set_pending(&mut once);
    let mut twice = Data { period_status: 2, counter: 5 };
    set_pending(&mut twice);
    set_pending(&mut twice);
    assert_eq!(once, twice);
    assert_eq!(twice.period_status, PeriodStatus::PendingSale.tag());
}

#[test]
fn an_unknown_tag_is_left_only_by_set_pending() {
    let mut data = Data { period_status: 200, counter: 0 };
    toggle_period(&mut data);
    toggle_period(&mut data);
    assert_eq!(data.period_status, 200);
    set_pending(&mut data);
    assert_eq!(data.period_status, 0);
    toggle_period(&mut data);
    assert_eq!(data.period_status, 1);
}
