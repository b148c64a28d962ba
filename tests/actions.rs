use valence_coordinator::actions::{
    enqueue_action, tick_action, zk_authorization_action, ChainAction, ProcessorMessage,
};

#[test]
fn tick_has_no_arguments() {
    assert!(matches!(tick_action(), ChainAction::Tick));
}

#[test]
fn enqueue_keeps_message_order() {
    let msgs = vec![b"{\"a\":1}".to_vec(), b"{\"b\":2}".to_vec(), b"{\"c\":3}".to_vec()];
    match enqueue_action("swap", msgs.clone()) {
        ChainAction::Enqueue { label, messages, ttl } => {
            assert_eq!(label, "swap");
            assert!(ttl.is_none());
            let got: Vec<Vec<u8>> = messages
                .into_iter()
                .map(|m| match m {
                    ProcessorMessage::CosmwasmExecuteMsg { msg } => msg,
                })
                .collect();
            assert_eq!(got, msgs);
        }
        other => panic!("unexpected {:?}", other),
    }
}

#[test]
fn enqueue_of_one_message() {
    match enqueue_action("l", vec![vec![7u8]]) {
        ChainAction::Enqueue { messages, .. } => {
            assert_eq!(messages.len(), 1);
            assert!(matches!(&messages[0], ProcessorMessage::CosmwasmExecuteMsg { msg } if msg == &vec![7u8]));
        }
        other => panic!("unexpected {:?}", other),
    }
}

#[test]
fn zk_action_carries_both_bundles() {
    let a = zk_authorization_action("zk", (vec![1], vec![2]), (vec![3], vec![4]));
    match a {
        ChainAction::ExecuteZkAuthorization { label, message, proof, domain_message, domain_proof } => {
            assert_eq!(label, "zk");
            assert_eq!(proof, vec![1]);
            assert_eq!(message, vec![2]);
            assert_eq!(domain_proof, vec![3]);
            assert_eq!(domain_message, vec![4]);
        }
        other => panic!("unexpected {:?}", other),
    }
}
