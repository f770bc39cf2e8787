use anchor_lang::prelude::Pubkey;
use whitelist::add_whitelists;
use whitelist::clear_whitelist;
use whitelist::initialize_contract;
use whitelist::set_pending;
use whitelist::toggle_period;
use whitelist::Data;
use whitelist::WhitelistData;

fn distinct_key(n: u16) -> Pubkey {
    let mut bytes = [0u8; 32];
    bytes[0] = 1;
    bytes[30..].copy_from_slice(&n.to_be_bytes());
    Pubkey::new_from_array(bytes)
}

#[test]
fn end_to_end() {
    let k1 = Pubkey::new_from_array([0x11; 32]);
    let k2 = Pubkey::new_from_array([0x22; 32]);
    let empty = Pubkey::new_from_array([0u8; 32]);

    let mut data = Data { period_status: 0, counter: 0 };
    let mut whitelist = WhitelistData { data: [empty; 3000] };

    initialize_contract(&mut data, &mut whitelist);
    assert_eq!(data.counter, 0);
    assert_eq!(data.period_status, 1);

    add_whitelists(&mut data, &mut whitelist, vec![k1, k2]);
    assert_eq!(data.counter, 2);
    assert_eq!(whitelist.data[..2], [k1, k2]);
    assert!(whitelist.data[2..3000].iter().all(|slot| *slot == empty));

    let many: Vec<Pubkey> = (0..2999).map(distinct_key).collect();
    assert_eq!(many.len(), 2999);
    let slots_before = whitelist.data;
    add_whitelists(&mut data, &mut whitelist, many);
    assert_eq!(data, Data { period_status: 1, counter: 2 });
    assert_eq!(whitelist.data, slots_before);

    clear_whitelist(&mut data);
    assert_eq!(data.counter, 0);
    assert_eq!(whitelist.data, slots_before);
    assert_eq!(whitelist.data[..2], [k1, k2]);

    set_pending(&mut data);
    assert_eq!(data.period_status, 0);

    toggle_period(&mut data);
    assert_eq!(data.period_status, 1);
    assert_eq!(data.counter, 0);
}
