use era_test_node::cache::CacheConfig;
use era_test_node::fork::{
    Block, BlockNumber, BridgeAddresses, FetchError, ForkError, Lookup, RawTransaction,
    RemoteCall, Transaction,
};
use era_test_node::http_fork_source::HttpForkSource;
use era_test_node::primitives::{Address, H256};

fn source() -> HttpForkSource {
    HttpForkSource::new("http://localhost:3050".to_string(), CacheConfig::Memory)
}

fn remote_block(hash: H256, number: u64) -> Block {
    Block { hash, number, payload: format!("{{\"number\":\"{number:#x}\"}}") }
}

fn repeat_address(b: u8) -> Address {
    let w = H256::repeat_byte(b);
    Address { hi: w.c1 as u32, mid: w.c2, lo: w.c3 }
}

#[test]
fn test_get_block_by_hash_full_is_cached() {
    let input_block_hash = H256::repeat_byte(0x01);
    let input_block_number = 8;
    let mut fork_source = source();

    let call = match fork_source.get_block_by_hash(input_block_hash, true) {
        Lookup::Fetch(call) => call,
        Lookup::Cached(_) => panic!("empty cache answered"),
    };
    assert_eq!(call, RemoteCall::GetBlockByHash { hash: input_block_hash, full_transactions: true });
    let actual_block = fork_source
        .complete_block_by_hash(input_block_hash, true, Ok(Some(remote_block(input_block_hash, input_block_number))))
        .expect("failed fetching block by hash")
        .expect("no block");
    assert_eq!(input_block_hash, actual_block.hash);
    assert_eq!(input_block_number, actual_block.number);

    let actual_block = match fork_source.get_block_by_hash(input_block_hash, true) {
        Lookup::Cached(block) => block.expect("no block"),
        Lookup::Fetch(_) => panic!("failed fetching cached block by hash"),
    };
    assert_eq!(input_block_hash, actual_block.hash);
    assert_eq!(input_block_number, actual_block.number);
}

#[test]
fn test_get_block_by_hash_minimal_is_cached() {
    let input_block_hash = H256::repeat_byte(0x01);
    let input_block_number = 8;
    let mut fork_source = source();

    let call = match fork_source.get_block_by_hash(input_block_hash, false) {
        Lookup::Fetch(call) => call,
        Lookup::Cached(_) => panic!("empty cache answered"),
    };
    assert_eq!(call, RemoteCall::GetBlockByHash { hash: input_block_hash, full_transactions: false });
    let actual_block = fork_source
        .complete_block_by_hash(input_block_hash, false, Ok(Some(remote_block(input_block_hash, input_block_number))))
        .expect("failed fetching block by hash")
        .expect("no block");
    assert_eq!(input_block_hash, actual_block.hash);
    assert_eq!(input_block_number, actual_block.number);

    let actual_block = match fork_source.get_block_by_hash(input_block_hash, false) {
        Lookup::Cached(block) => block.expect("no block"),
        Lookup::Fetch(_) => panic!("failed fetching cached block by hash"),
    };
    assert_eq!(input_block_hash, actual_block.hash);
    assert_eq!(input_block_number, actual_block.number);
}

#[test]
fn test_get_block_by_number_full_is_cached() {
    let input_block_hash = H256::repeat_byte(0x01);
    let input_block_number = 8;
    let mut fork_source = source();

    let call = match fork_source.get_block_by_number(BlockNumber::Number(input_block_number), true) {
        Lookup::Fetch(call) => call,
        Lookup::Cached(_) => panic!("empty cache answered"),
    };
    assert_eq!(
        call,
        RemoteCall::GetBlockByNumber { block_number: BlockNumber::Number(input_block_number), full_transactions: true }
    );
    let actual_block = fork_source
        .complete_block_by_number(true, Ok(Some(remote_block(input_block_hash, input_block_number))))
        .expect("failed fetching block by number")
        .expect("no block");
    assert_eq!(input_block_hash, actual_block.hash);
    assert_eq!(input_block_number, actual_block.number);

    let actual_block = match fork_source.get_block_by_number(BlockNumber::Number(input_block_number), true) {
        Lookup::Cached(block) => block.expect("no block"),
        Lookup::Fetch(_) => panic!("failed fetching cached block by number"),
    };
    assert_eq!(input_block_hash, actual_block.hash);
    assert_eq!(input_block_number, actual_block.number);
}

#[test]
fn test_get_block_by_number_minimal_is_cached() {
    let input_block_hash = H256::repeat_byte(0x01);
    let input_block_number = 8;
    let mut fork_source = source();

    let call = match fork_source.get_block_by_number(BlockNumber::Number(input_block_number), false) {
        Lookup::Fetch(call) => call,
        Lookup::Cached(_) => panic!("empty cache answered"),
    };
    assert_eq!(
        call,
        RemoteCall::GetBlockByNumber { block_number: BlockNumber::Number(input_block_number), full_transactions: false }
    );
    let actual_block = fork_source
        .complete_block_by_number(false, Ok(Some(remote_block(input_block_hash, input_block_number))))
        .expect("failed fetching block by number")
        .expect("no block");
    assert_eq!(input_block_hash, actual_block.hash);
    assert_eq!(input_block_number, actual_block.number);

    let actual_block = match fork_source.get_block_by_number(BlockNumber::Number(input_block_number), false) {
        Lookup::Cached(block) => block.expect("no block"),
        Lookup::Fetch(_) => panic!("failed fetching cached block by number"),
    };
    assert_eq!(input_block_hash, actual_block.hash);
    assert_eq!(input_block_number, actual_block.number);
}

#[test]
fn test_get_raw_block_transactions_is_cached() {
    let input_block_number = 8u32;
    let mut fork_source = source();

    let call = match fork_source.get_raw_block_transactions(input_block_number) {
        Lookup::Fetch(call) => call,
        Lookup::Cached(_) => panic!("empty cache answered"),
    };
    assert_eq!(call, RemoteCall::GetRawBlockTransactions { block_number: input_block_number });
    let remote = vec![RawTransaction { payload: "{\"nonce\":1}".to_string() }];
    let actual_raw_transactions = fork_source
        .complete_raw_block_transactions(input_block_number, Ok(remote))
        .expect("failed fetching block raw transactions");
    assert_eq!(1, actual_raw_transactions.len());

    let actual_raw_transactions = match fork_source.get_raw_block_transactions(input_block_number) {
        Lookup::Cached(transactions) => transactions,
        Lookup::Fetch(_) => panic!("failed fetching cached block raw transactions"),
    };
    assert_eq!(1, actual_raw_transactions.len());
}

#[test]
fn test_get_transactions_is_cached() {
    let input_tx_hash = H256::repeat_byte(0x01);
    let mut fork_source = source();

    let call = match fork_source.get_transaction_by_hash(input_tx_hash) {
        Lookup::Fetch(call) => call,
        Lookup::Cached(_) => panic!("empty cache answered"),
    };
    assert_eq!(call, RemoteCall::GetTransactionByHash { hash: input_tx_hash });
    let remote = Transaction { hash: input_tx_hash, payload: "{}".to_string() };
    let actual_transaction = fork_source
        .complete_transaction_by_hash(input_tx_hash, Ok(Some(remote)))
        .expect("failed fetching transaction")
        .expect("no transaction");
    assert_eq!(input_tx_hash, actual_transaction.hash);

    let actual_transaction = match fork_source.get_transaction_by_hash(input_tx_hash) {
        Lookup::Cached(transaction) => transaction.expect("no transaction"),
        Lookup::Fetch(_) => panic!("failed fetching cached transaction"),
    };
    assert_eq!(input_tx_hash, actual_transaction.hash);
}

#[test]
fn test_get_transaction_details() {
    let input_tx_hash = H256::repeat_byte(0x01);
    let fork_source = source();
    // 0x63ab285cd87a189f345fed7dd4e33780393e01f0
    let initiator_address = Address { hi: 0x63ab285c, mid: 0xd87a189f345fed7d, lo: 0xd4e33780393e01f0 };

    let call = fork_source.get_transaction_details(input_tx_hash);
    assert_eq!(call, RemoteCall::GetTransactionDetails { hash: input_tx_hash });
    let transaction_details = fork_source
        .complete_uncached(Ok(Some(initiator_address)))
        .expect("failed fetching transaction")
        .expect("no transaction");
    assert_eq!(transaction_details, initiator_address);
    assert_eq!(fork_source.get_transaction_details(input_tx_hash), call);
}

#[test]
fn test_get_bridge_contracts_is_cached() {
    let input_bridge_addresses = BridgeAddresses {
        l1_erc20_default_bridge: repeat_address(0x1),
        l2_erc20_default_bridge: repeat_address(0x2),
        l1_weth_bridge: Some(repeat_address(0x3)),
        l2_weth_bridge: Some(repeat_address(0x4)),
    };
    let mut fork_source = source();

    assert_eq!(fork_source.get_bridge_contracts(), Lookup::Fetch(RemoteCall::GetBridgeContracts));
    let actual_bridge_addresses = fork_source
        .complete_bridge_contracts(Ok(input_bridge_addresses))
        .expect("failed fetching bridge addresses");
    assert_eq!(input_bridge_addresses, actual_bridge_addresses);

    let actual_bridge_addresses = match fork_source.get_bridge_contracts() {
        Lookup::Cached(addresses) => addresses,
        Lookup::Fetch(_) => panic!("failed fetching bridge addresses"),
    };
    assert_eq!(input_bridge_addresses, actual_bridge_addresses);
}

#[test]
fn full_and_minimal_blocks_are_distinct_entries() {
    let hash = H256::repeat_byte(0x05);
    let mut fork_source = source();
    let full = remote_block(hash, 3);
    fork_source.complete_block_by_hash(hash, true, Ok(Some(full.clone()))).unwrap();

    assert_eq!(
        fork_source.get_block_by_hash(hash, false),
        Lookup::Fetch(RemoteCall::GetBlockByHash { hash, full_transactions: false })
    );
    let minimal = Block { hash, number: 3, payload: "minimal".to_string() };
    fork_source.complete_block_by_hash(hash, false, Ok(Some(minimal.clone()))).unwrap();

    assert_eq!(fork_source.get_block_by_hash(hash, true), Lookup::Cached(Some(full)));
    assert_eq!(fork_source.get_block_by_hash(hash, false), Lookup::Cached(Some(minimal)));
}

#[test]
fn block_by_number_and_by_hash_share_entries() {
    let hash = H256::repeat_byte(0x07);
    let mut fork_source = source();
    let block = remote_block(hash, 12);
    fork_source.complete_block_by_hash(hash, true, Ok(Some(block.clone()))).unwrap();
    assert_eq!(fork_source.get_block_by_number(BlockNumber::Number(12), true), Lookup::Cached(Some(block)));
    assert_eq!(
        fork_source.get_block_by_number(BlockNumber::Number(12), false),
        Lookup::Fetch(RemoteCall::GetBlockByNumber { block_number: BlockNumber::Number(12), full_transactions: false })
    );
}

#[test]
fn block_tags_are_never_answered_from_the_cache() {
    let hash = H256::repeat_byte(0x07);
    let mut fork_source = source();
    fork_source.complete_block_by_number(true, Ok(Some(remote_block(hash, 12)))).unwrap();
    assert_eq!(
        fork_source.get_block_by_number(BlockNumber::Latest, true),
        Lookup::Fetch(RemoteCall::GetBlockByNumber { block_number: BlockNumber::Latest, full_transactions: true })
    );
}

#[test]
fn missing_results_and_failures_are_not_cached() {
    let hash = H256::repeat_byte(0x09);
    let mut fork_source = source();
    assert_eq!(fork_source.complete_block_by_hash(hash, true, Ok(None)), Ok(None));
    let failure = FetchError { message: "connection refused".to_string() };
    assert_eq!(
        fork_source.complete_transaction_by_hash(hash, Err(failure.clone())),
        Err(ForkError::RemoteFetch(failure.clone()))
    );
    assert_eq!(fork_source.complete_raw_block_transactions(4, Ok(Vec::new())), Ok(Vec::new()));
    assert_eq!(
        fork_source.complete_bridge_contracts(Err(failure.clone())),
        Err(ForkError::RemoteFetch(failure))
    );

    assert_eq!(
        fork_source.get_block_by_hash(hash, true),
        Lookup::Fetch(RemoteCall::GetBlockByHash { hash, full_transactions: true })
    );
    assert_eq!(
        fork_source.get_transaction_by_hash(hash),
        Lookup::Fetch(RemoteCall::GetTransactionByHash { hash })
    );
    assert_eq!(
        fork_source.get_raw_block_transactions(4),
        Lookup::Fetch(RemoteCall::GetRawBlockTransactions { block_number: 4 })
    );
    assert_eq!(fork_source.get_bridge_contracts(), Lookup::Fetch(RemoteCall::GetBridgeContracts));
}

#[test]
fn uncached_reads_always_name_the_remote_call() {
    let fork_source = source();
    let hash = H256::repeat_byte(0x02);
    let address = repeat_address(0x0a);
    assert_eq!(
        fork_source.get_storage_at(address, H256::zero(), None),
        RemoteCall::GetStorageAt { address, idx: H256::zero(), block: None }
    );
    assert_eq!(fork_source.get_bytecode_by_hash(hash), RemoteCall::GetBytecodeByHash { hash });
    assert_eq!(
        fork_source.get_block_transaction_count_by_hash(hash),
        RemoteCall::GetBlockTransactionCountByHash { block_hash: hash }
    );
    assert_eq!(
        fork_source.get_block_transaction_count_by_number(BlockNumber::Pending),
        RemoteCall::GetBlockTransactionCountByNumber { block_number: BlockNumber::Pending }
    );
    assert_eq!(
        fork_source.get_transaction_by_block_hash_and_index(hash, 2),
        RemoteCall::GetTransactionByBlockHashAndIndex { block_hash: hash, index: 2 }
    );
    assert_eq!(
        fork_source.get_transaction_by_block_number_and_index(BlockNumber::Number(5), 1),
        RemoteCall::GetTransactionByBlockNumberAndIndex { block_number: BlockNumber::Number(5), index: 1 }
    );
    let failure = FetchError { message: "timeout".to_string() };
    assert_eq!(
        fork_source.complete_uncached::<Option<Vec<u8>>>(Err(failure.clone())),
        Err(ForkError::RemoteFetch(failure))
    );
}
