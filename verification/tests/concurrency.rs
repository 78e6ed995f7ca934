use std::collections::HashSet;
use std::sync::{Arc, Mutex};

use book_store::handlers::create_book;
use book_store::{Book, Store};

#[test]
fn concurrent_creates_lose_no_update() {
    let store = Arc::new(Mutex::new(Store::new()));
    let runtime = tokio::runtime::Builder::new_multi_thread()
        .worker_threads(8)
        .build()
        .unwrap();

    runtime.block_on(async {
        let mut handles = Vec::new();
        for id in 1u128..=100 {
            let shared = Arc::clone(&store);
            handles.push(tokio::spawn(async move {
                let payload = Book {
                    id,
                    title: format!("title {}", id),
                    author: format!("author {}", id),
                };
                let mut guard = shared.lock().unwrap();
                create_book(&mut *guard, payload);
            }));
        }
        for handle in handles {
            handle.await.unwrap();
        }
    });

    let listed = store.lock().unwrap().list();
    assert_eq!(listed.len(), 100);
    let ids: HashSet<u128> = listed.iter().map(|b| b.id).collect();
    assert_eq!(ids.len(), 100);
    for id in 1u128..=100 {
        assert!(ids.contains(&id));
        let got = store.lock().unwrap().get(id).unwrap();
        assert_eq!(got.title, format!("title {}", id));
        assert_eq!(got.author, format!("author {}", id));
    }
}
