use audio_devices::devices::{collect, plan_fetch, size_query, IDENTIFIER_SIZE};
use audio_devices::property::{
    check_status, global, AudioObject, Element, FetchReply, FetchRequest, OsStatusError, Scope,
    Selector, SizeReply, NO_ERROR,
};
use std::collections::BTreeSet;

fn list(size: SizeReply, status: i32, reported: u32, buffer: Vec<u32>) -> Result<Vec<u32>, OsStatusError> {
    let request = plan_fetch(size)?;
    collect(request, FetchReply { status, size: reported, data: buffer })
}

#[test]
fn size_query_addresses_the_device_list() {
    let query = size_query();
    assert_eq!(query.object, AudioObject::System);
    assert_eq!(query.address.selector, Selector::Devices);
    assert_eq!(query.address.scope, Scope::Global);
    assert_eq!(query.address.element, Element::Master);
}

#[test]
fn global_address_is_global_master() {
    let address = global(Selector::DeviceName);
    assert_eq!(address.selector, Selector::DeviceName);
    assert_eq!(address.scope, Scope::Global);
    assert_eq!(address.element, Element::Master);
}

#[test]
fn status_zero_is_success() {
    assert_eq!(NO_ERROR, 0);
    assert_eq!(check_status(0), Ok(()));
    assert_eq!(check_status(-50), Err(OsStatusError { code: -50 }));
    assert_eq!(check_status(1), Err(OsStatusError { code: 1 }));
}

#[test]
fn plan_divides_the_size_by_four() {
    assert_eq!(IDENTIFIER_SIZE, 4);
    let request = plan_fetch(SizeReply { status: 0, size: 8 }).unwrap();
    assert_eq!(
        request,
        FetchRequest {
            object: AudioObject::System,
            address: global(Selector::Devices),
            capacity: 2,
            declared_size: 8,
        }
    );
}

#[test]
fn plan_drops_a_remainder() {
    for (size, count) in [(0u32, 0u32), (3, 0), (4, 1), (7, 1), (9, 2), (11, 2), (12, 3)] {
        let request = plan_fetch(SizeReply { status: 0, size }).unwrap();
        assert_eq!(request.capacity, count);
        assert_eq!(request.declared_size, size);
    }
}

#[test]
fn plan_takes_the_largest_size() {
    let request = plan_fetch(SizeReply { status: 0, size: u32::MAX }).unwrap();
    assert_eq!(request.capacity, 1073741823);
    assert_eq!(request.declared_size, u32::MAX);
}

#[test]
fn plan_fails_with_the_status_of_the_size_query() {
    assert_eq!(plan_fetch(SizeReply { status: -50, size: 8 }), Err(OsStatusError { code: -50 }));
    assert_eq!(
        plan_fetch(SizeReply { status: i32::MIN, size: 0 }),
        Err(OsStatusError { code: i32::MIN })
    );
    assert_eq!(plan_fetch(SizeReply { status: 1, size: 0 }), Err(OsStatusError { code: 1 }));
}

#[test]
fn listing_returns_the_identifiers_in_order() {
    let devices = list(SizeReply { status: 0, size: 8 }, 0, 8, vec![101, 102]);
    assert_eq!(devices, Ok(vec![101, 102]));
}

#[test]
fn listing_length_is_the_declared_size_over_four() {
    for size in [0u32, 4, 8, 10, 40, 43] {
        let buffer: Vec<u32> = (0..size / 4).map(|i| 1000 + i).collect();
        let devices = list(SizeReply { status: 0, size }, 0, size, buffer.clone()).unwrap();
        assert_eq!(devices.len() as u32, size / 4);
        assert_eq!(devices, buffer);
    }
}

#[test]
fn listing_keeps_the_count_of_the_size_query() {
    let fewer = list(SizeReply { status: 0, size: 12 }, 0, 4, vec![5, 0, 0]);
    assert_eq!(fewer, Ok(vec![5, 0, 0]));
    let more = list(SizeReply { status: 0, size: 8 }, 0, 16, vec![5, 6, 7, 8]);
    assert_eq!(more, Ok(vec![5, 6]));
}

#[test]
fn listing_of_a_short_buffer_keeps_all_of_it() {
    let devices = list(SizeReply { status: 0, size: 12 }, 0, 12, vec![5]);
    assert_eq!(devices, Ok(vec![5]));
}

#[test]
fn listing_of_no_devices_is_empty_and_no_error() {
    assert_eq!(list(SizeReply { status: 0, size: 0 }, 0, 0, vec![]), Ok(vec![]));
    assert_eq!(list(SizeReply { status: 0, size: 3 }, 0, 3, vec![]), Ok(vec![]));
}

#[test]
fn listing_fails_with_the_status_of_the_size_query() {
    let devices = list(SizeReply { status: -50, size: 8 }, 0, 8, vec![101, 102]);
    assert_eq!(devices, Err(OsStatusError { code: -50 }));
}

#[test]
fn listing_fails_with_the_status_of_the_fetch() {
    let devices = list(SizeReply { status: 0, size: 8 }, 2003332927, 8, vec![101, 102]);
    assert_eq!(devices, Err(OsStatusError { code: 2003332927 }));
}

#[test]
fn listing_twice_gives_the_same_set() {
    let size = SizeReply { status: 0, size: 12 };
    let first = list(size, 0, 12, vec![9, 4, 7]).unwrap();
    let second = list(size, 0, 12, vec![7, 9, 4]).unwrap();
    let first: BTreeSet<u32> = first.into_iter().collect();
    let second: BTreeSet<u32> = second.into_iter().collect();
    assert_eq!(first, second);
    let again = list(size, 0, 12, vec![9, 4, 7]);
    assert_eq!(again, list(size, 0, 12, vec![9, 4, 7]));
}

#[test]
fn every_identifier_is_taken_as_it_is() {
    let devices = list(SizeReply { status: 0, size: 8 }, 0, 8, vec![0, u32::MAX]);
    assert_eq!(devices, Ok(vec![0, u32::MAX]));
}
