use std::sync::Arc;
use std::sync::Mutex;

use sql_acl::define::UserDAcls;
use sql_acl::manager::AclManager;
use sql_acl::traits::TestSubAble;

#[test]
fn test_register_and_lookup() {
    let mut manager = AclManager::new();
    let config = UserDAcls::stub();
    manager.register_config("1001".to_string(), config.clone());

    let found = manager.get_config("1001").unwrap();
    assert_eq!(found.user_id, config.user_id);
    assert_eq!(found.data_acls.len(), config.data_acls.len());
    assert_eq!(
        found.data_acls[0].data_view.source,
        config.data_acls[0].data_view.source
    );

    assert!(manager.get_config("unknown").is_none());
}

#[test]
fn test_reregistration_replaces_wholesale() {
    let mut manager = AclManager::new();
    let mut first = UserDAcls::stub();
    first.set_user_id("7".to_string());
    manager.register_config("7".to_string(), first);

    let mut second = UserDAcls::stub();
    second.set_user_id("7".to_string());
    second.data_acls.clear();
    manager.register_config("7".to_string(), second);

    let found = manager.get_config("7").unwrap();
    assert_eq!(found.user_id, "7");
    assert!(found.data_acls.is_empty());
}

#[test]
fn test_concurrent_access() {
    let runtime = tokio::runtime::Builder::new_multi_thread()
        .worker_threads(4)
        .enable_all()
        .build()
        .unwrap();
    runtime.block_on(async {
        let manager = Arc::new(Mutex::new(AclManager::new()));
        let test_user_id = 1u32;
        let prototype_config = UserDAcls::stub();

        let mut handles = Vec::new();
        for i in 0..10u32 {
            let manager = manager.clone();
            let mut acl = prototype_config.clone();
            let user_id = test_user_id + i;
            acl.set_user_id(user_id.to_string());
            handles.push(tokio::spawn(async move {
                manager.lock().unwrap().register_config(user_id.to_string(), acl);
            }));
        }
        for handle in handles {
            handle.await.unwrap();
        }

        let mut read_handles = Vec::new();
        for i in 0..10u32 {
            let manager = manager.clone();
            let user_id = test_user_id + i;
            read_handles.push(tokio::spawn(async move {
                let found = manager.lock().unwrap().get_config(user_id.to_string().as_str());
                let found = found.unwrap();
                assert_eq!(found.user_id, user_id.to_string());
            }));
        }
        for handle in read_handles {
            handle.await.unwrap();
        }
    });
}
