use block_space_alloc::shell::{BlockHash, BlockHeight, MempoolTxType, Shell};

#[test]
fn genesis_accounts() {
    let shell = Shell::new();
    assert_eq!(shell.balance(&"va".to_string()), Some(10000));
    assert_eq!(shell.balance(&"ba".to_string()), Some(100));
    assert_eq!(shell.balance(&"xx".to_string()), None);
    assert!(shell.last_committed().is_none());
}

#[test]
fn block_lifecycle() {
    let mut shell = Shell::new();
    shell.init_chain("test-chain".to_string());
    shell.begin_block(BlockHash(vec![1, 2, 3]), BlockHeight(7));
    shell.end_block(BlockHeight(7));
    let root = shell.commit(vec![9, 9]);
    assert_eq!(root.0, vec![9, 9]);
    let (last, height) = shell.last_committed().unwrap();
    assert_eq!(last.0, vec![9, 9]);
    assert_eq!(height, BlockHeight(7));
    let again = shell.commit(vec![5]);
    assert_eq!(again.0, vec![5]);
    assert_eq!(shell.last_committed().unwrap().0 .0, vec![9, 9]);
    assert_ne!(MempoolTxType::NewTransaction, MempoolTxType::RecheckTransaction);
}
