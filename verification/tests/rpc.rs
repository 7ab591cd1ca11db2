use mining_net::rpc::{add, AddRpc, RpcFunction};

#[test]
fn add_sums() {
    assert_eq!(add((1, 2)), 3);
    assert_eq!(add((-5, 2)), -3);
    assert_eq!(add((i32::MAX, 0)), i32::MAX);
    assert_eq!(add((i32::MIN, 0)), i32::MIN);
}

#[test]
fn add_rpc_call() {
    let f = AddRpc::new();
    assert_eq!(f.call((40, 2)), 42);
    assert_eq!(f.name(), "add");
}

#[test]
fn call_package_small_values() {
    // zigzag: 1 -> 2, 2 -> 4
    assert_eq!(AddRpc::call_package((1, 2)).unwrap(), vec![2, 4]);
    // zigzag: 0 -> 0, -1 -> 1
    assert_eq!(AddRpc::call_package((0, -1)).unwrap(), vec![0, 1]);
}

#[test]
fn call_package_wide_values() {
    // -300 -> 599 = 0x257: marker 251 and two bytes
    // 100000 -> 200000 = 0x30d40: marker 252 and four bytes
    assert_eq!(
        AddRpc::call_package((-300, 100000)).unwrap(),
        vec![251, 0x57, 0x02, 252, 0x40, 0x0d, 0x03, 0x00]
    );
}

#[test]
fn call_package_extremes() {
    // i32::MIN -> u32::MAX, i32::MAX -> u32::MAX - 1
    assert_eq!(
        AddRpc::call_package((i32::MIN, i32::MAX)).unwrap(),
        vec![252, 0xff, 0xff, 0xff, 0xff, 252, 0xfe, 0xff, 0xff, 0xff]
    );
}

#[test]
fn return_package_values() {
    assert_eq!(AddRpc::return_package(3).unwrap(), vec![6]);
    // 125 -> 250, the largest one-byte value
    assert_eq!(AddRpc::return_package(125).unwrap(), vec![250]);
    // 126 -> 252: needs the marker
    assert_eq!(AddRpc::return_package(126).unwrap(), vec![251, 252, 0]);
    assert_eq!(AddRpc::return_package(-300).unwrap(), vec![251, 0x57, 0x02]);
}

#[test]
fn different_arguments_give_different_packages() {
    let a = AddRpc::call_package((1, 300)).unwrap();
    let b = AddRpc::call_package((300, 1)).unwrap();
    assert_ne!(a, b);
}

#[test]
fn call_package_decodes_to_arguments() {
    for args in [(1, 2), (0, -1), (-300, 100000), (i32::MIN, i32::MAX), (125, 126)] {
        let bytes = AddRpc::call_package(args).unwrap();
        let decoded: ((i32, i32), usize) =
            bincode::decode_from_slice(&bytes, bincode::config::standard()).unwrap();
        assert_eq!(decoded, (args, bytes.len()));
    }
}

#[test]
fn return_package_decodes_to_result() {
    for output in [0, 3, -1, 125, 126, -300, 100000, i32::MIN, i32::MAX] {
        let bytes = AddRpc::return_package(output).unwrap();
        let decoded: (i32, usize) =
            bincode::decode_from_slice(&bytes, bincode::config::standard()).unwrap();
        assert_eq!(decoded, (output, bytes.len()));
    }
}
