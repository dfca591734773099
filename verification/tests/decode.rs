use nft_indexer::address::MsgAddress;
use nft_indexer::batch::{partition_decoded, Batches, SaveStep};
use nft_indexer::chain_types::DirectSellInfo;
use nft_indexer::context::{DecodeContext, DecodeError, TxInfo};
use nft_indexer::decode::{decode_direct_sell_state_changed, decode_nft_burned, decode_nft_created, decode_owner_changed, CacheWrite};
use nft_indexer::events::{DirectSellStateChanged, NftBurned, NftCreated, OwnerChanged};
use nft_indexer::records::{Decoded, DirectSellState};

fn a(byte: u8) -> MsgAddress {
    MsgAddress { workchain: 0, address: vec![byte; 2] }
}

fn ctx() -> DecodeContext {
    DecodeContext {
        tx_data: TxInfo { in_msg_dst: None, account_addr: vec![0xcc; 2], hash: vec![1], lt: 500, now: 1_600_000_000 },
        message_hash: "m".to_string(),
    }
}

fn sell(to: u8, end: u64) -> DirectSellStateChanged {
    DirectSellStateChanged {
        from: 2,
        to,
        value2: DirectSellInfo {
            factory: a(1),
            creator: a(2),
            token: a(3),
            nft: a(4),
            _time_tx: 0,
            start: 100,
            end,
            _price: 42,
            wallet: a(5),
            status: to,
            collection: a(6),
        },
    }
}

#[test]
fn a_created_nft_belongs_to_the_emitting_collection() {
    let ev = NftCreated { id: vec![1, 0], nft: a(0x11), owner: a(0x12), manager: a(0x13), creator: a(0x14) };
    let (d, w) = decode_nft_created(&ev, &ctx()).unwrap();
    match d {
        Decoded::CreateNft(r) => {
            assert_eq!(r.address, "0:1111");
            assert_eq!(r.collection, "0:cccc");
            assert_eq!(r.id.magnitude.digits, vec![2, 5, 6]);
            assert_eq!(r.updated, 1_600_000_000);
            assert_eq!(r.owner_update_lt, 500);
        },
        _ => panic!("expected a created nft"),
    }
    assert!(matches!(w, CacheWrite::CollectionOfNft(n, c) if n == "0:1111" && c == "0:cccc"));
}

#[test]
fn burned_and_changed_nfts() {
    let ev = NftBurned { id: vec![1], nft: a(0x21), owner: a(0x22), manager: a(0x23) };
    assert!(matches!(decode_nft_burned(&ev).unwrap(), Decoded::BurnNft(r) if r.address == "0:2121" && r.manager == "0:2323"));
    let ev = OwnerChanged { old_owner: a(1), new_owner: a(2) };
    match decode_owner_changed(&ev, &ctx()).unwrap() {
        Decoded::OwnerChangedNft(r) => {
            assert_eq!(r.id_address, "0:cccc");
            assert_eq!(r.new_address, "0:0202");
            assert_eq!(r.logical_time, 500);
        },
        _ => panic!("expected an owner change"),
    }
}

#[test]
fn direct_sells_are_recorded_from_active_on() {
    assert!(matches!(decode_direct_sell_state_changed(&sell(0, 200), &ctx()).unwrap(), Decoded::ShouldSkip));
    assert!(matches!(decode_direct_sell_state_changed(&sell(1, 200), &ctx()).unwrap(), Decoded::ShouldSkip));
    match decode_direct_sell_state_changed(&sell(3, 200), &ctx()).unwrap() {
        Decoded::DirectSellStateChanged((r, Some(p))) => {
            assert_eq!(r.state, DirectSellState::Filled);
            assert_eq!(r.finished_at, Some(1_600_000_000));
            assert_eq!(r.expired_at, 200);
            assert_eq!(p.price.magnitude.digits, vec![4, 2]);
        },
        _ => panic!("expected a filled sale"),
    }
    assert!(matches!(
        decode_direct_sell_state_changed(&sell(2, 200), &ctx()).unwrap(),
        Decoded::DirectSellStateChanged((_, None))
    ));
    assert_eq!(
        decode_direct_sell_state_changed(&sell(2, u64::MAX), &ctx()).err(),
        Some(DecodeError::IntegerOverflow)
    );
}

#[test]
fn records_are_batched_by_table_and_saved_in_order() {
    let created = NftCreated { id: vec![1], nft: a(0x11), owner: a(0x12), manager: a(0x13), creator: a(0x14) };
    let (d1, _) = decode_nft_created(&created, &ctx()).unwrap();
    let d2 = decode_nft_burned(&NftBurned { id: vec![1], nft: a(0x21), owner: a(0x22), manager: a(0x23) }).unwrap();
    let b = partition_decoded(vec![Decoded::ShouldSkip, d1, d2, Decoded::ShouldSkip]);
    assert_eq!(b.nft_created.len(), 1);
    assert_eq!(b.nft_burned.len(), 1);
    assert_eq!(b.collections_to_queue, vec![("0:cccc".to_string(), 1_600_000_000)]);
    assert_eq!(b.save_plan(), vec![SaveStep::NftCreated, SaveStep::NftBurned]);
    let empty = partition_decoded(vec![Decoded::ShouldSkip]);
    assert!(empty.save_plan().is_empty());
    assert!(Batches::new().save_plan().is_empty());
}
