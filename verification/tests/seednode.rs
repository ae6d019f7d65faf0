use abstract_ns::{Address, AddressBuilder};
use p2p::seednode::{pick_address, pick_even_address, SeednodeAnswer};

fn weighted(sets: &[&[(u64, &str)]]) -> Address {
    let mut builder = AddressBuilder::new();
    for set in sets {
        let mut parsed = Vec::new();
        for (weight, text) in set.iter() {
            parsed.push((*weight, text.parse().unwrap()));
        }
        builder.add_addresses(&parsed);
    }
    builder.into_address()
}

fn picked(text: &str) -> SeednodeAnswer {
    SeednodeAnswer::Picked { address: weighted(&[&[(0, text)]]) }
}

#[test]
fn single_address_is_picked() {
    let found: Result<Address, String> = Ok(weighted(&[&[(1, "10.1.2.3:8333")]]));
    assert_eq!(pick_address(&found), picked("10.1.2.3:8333"));
    assert_eq!(pick_even_address(&found), Some(picked("10.1.2.3:8333")));
}

#[test]
fn addresses_without_weight_are_not_picked() {
    let found: Result<Address, String> =
        Ok(weighted(&[&[(0, "10.0.0.1:1"), (7, "10.0.0.2:2"), (0, "10.0.0.3:3")]]));
    for _ in 0..50 {
        assert_eq!(pick_address(&found), picked("10.0.0.2:2"));
    }
    assert_eq!(pick_even_address(&found), None);
}

#[test]
fn first_address_is_picked_if_none_has_weight() {
    let found: Result<Address, String> = Ok(weighted(&[&[(0, "10.0.0.5:1"), (0, "10.0.0.6:2")]]));
    for _ in 0..50 {
        assert_eq!(pick_address(&found), picked("10.0.0.5:1"));
        assert_eq!(pick_even_address(&found), Some(picked("10.0.0.5:1")));
    }
}

#[test]
fn addresses_of_lower_priority_are_not_picked() {
    let found: Result<Address, String> =
        Ok(weighted(&[&[(1, "10.0.0.1:1"), (1, "[::1]:2")], &[(9, "10.0.0.3:3")]]));
    let mut first = false;
    let mut second = false;
    for _ in 0..200 {
        let answer = pick_even_address(&found).unwrap();
        first = first || answer == picked("10.0.0.1:1");
        second = second || answer == picked("[::1]:2");
        assert_ne!(answer, picked("10.0.0.3:3"));
    }
    assert!(first && second);
}

#[test]
fn name_without_addresses() {
    let found: Result<Address, String> = Ok(weighted(&[]));
    assert_eq!(pick_address(&found), SeednodeAnswer::NoAddress);
    assert_eq!(pick_even_address(&found), Some(SeednodeAnswer::NoAddress));
}

#[test]
fn name_that_is_not_resolved() {
    let failed: Result<Address, String> = Err("no such name".to_string());
    assert_eq!(pick_address(&failed), SeednodeAnswer::Failed);
    assert_eq!(pick_even_address(&failed), Some(SeednodeAnswer::Failed));
}

#[test]
fn mixed_weights_are_not_even() {
    for weights in [[0, 1], [1, 2], [2, 2]] {
        let found: Result<Address, String> =
            Ok(weighted(&[&[(weights[0], "10.0.0.1:1"), (weights[1], "10.0.0.2:2")]]));
        assert_eq!(pick_even_address(&found), None);
    }
}

#[test]
fn socket_is_picked_with_its_scope() {
    let found: Result<Address, String> = Ok(weighted(&[&[(1, "[fe80::1%3]:8333")]]));
    match pick_even_address(&found) {
        Some(SeednodeAnswer::Picked { address }) => {
            let sockets: Vec<_> = address.at(0).addresses().collect();
            assert_eq!(sockets, vec!["[fe80::1%3]:8333".parse().unwrap()]);
            assert_ne!(sockets, vec!["[fe80::1]:8333".parse().unwrap()]);
        }
        other => panic!("no socket was picked: {:?}", other),
    }
}
