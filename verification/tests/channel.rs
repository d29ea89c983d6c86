use webpush_client::{new_channel_id, Channel, ChannelSet, KeyMaterial};

fn channel(id: &str, endpoint: &str) -> Channel {
    Channel {
        channel_id: id.to_string(),
        endpoint: endpoint.to_string(),
        keys: KeyMaterial::generate(),
    }
}

#[test]
fn channel_id_is_a_hyphenated_uuid() {
    let id = new_channel_id();
    assert_eq!(id.len(), 36);
    for (i, c) in id.chars().enumerate() {
        if i == 8 || i == 13 || i == 18 || i == 23 {
            assert_eq!(c, '-');
        } else {
            assert!(matches!(c, '0'..='9' | 'a'..='f'), "{c} at {i}");
        }
    }
}

#[test]
fn channel_ids_differ() {
    assert_ne!(new_channel_id(), new_channel_id());
}

#[test]
fn new_set_is_empty() {
    let set = ChannelSet::new();
    assert_eq!(set.len(), 0);
    assert!(set.get("a").is_none());
}

#[test]
fn inserted_channel_is_found_under_its_id() {
    let mut set = ChannelSet::new();
    set.insert(channel("a", "https://push.example/a"));
    set.insert(channel("b", "https://push.example/b"));
    assert_eq!(set.len(), 2);
    assert_eq!(set.get("a").unwrap().endpoint, "https://push.example/a");
    assert_eq!(set.get("b").unwrap().endpoint, "https://push.example/b");
    assert!(set.get("c").is_none());
}

#[test]
fn channel_of_the_same_id_is_replaced() {
    let mut set = ChannelSet::new();
    set.insert(channel("a", "https://push.example/1"));
    set.insert(channel("b", "https://push.example/2"));
    let replacement = channel("a", "https://push.example/3");
    let public_key = replacement.keys.public_key().to_vec();
    set.insert(replacement);
    assert_eq!(set.len(), 2);
    let found = set.get("a").unwrap();
    assert_eq!(found.endpoint, "https://push.example/3");
    assert_eq!(found.keys.public_key(), public_key.as_slice());
    assert_eq!(set.get("b").unwrap().endpoint, "https://push.example/2");
}
