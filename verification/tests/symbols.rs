use handle_bridge::CompactHandle;
use handle_bridge::FullHandle;
use handle_bridge::symbol::mangle;

#[test]
fn mangle_joins_prefix_kind_segment_and_op() {
    assert_eq!(mangle("compact", "u32", "null"), "bridge1$compact$u32$null");
    assert_eq!(mangle("full", "string", "drop"), "bridge1$full$string$drop");
}

#[test]
fn each_pointee_gets_its_own_trampolines() {
    let a = CompactHandle::<u32>::trampoline_symbol("clone");
    let b = CompactHandle::<u8>::trampoline_symbol("clone");
    assert_ne!(a, b);
    assert_eq!(a, "bridge1$compact$u32$clone");
    assert_eq!(b, "bridge1$compact$u8$clone");
}

#[test]
fn each_kind_gets_its_own_trampolines() {
    let c = CompactHandle::<i32>::trampoline_symbol("get");
    let f = FullHandle::<i32>::trampoline_symbol("get");
    assert_ne!(c, f);
    assert_eq!(f, "bridge1$full$i32$get");
}

#[test]
fn five_ops_five_distinct_symbols() {
    let ops = ["null", "uninit", "clone", "get", "drop"];
    let symbols: Vec<String> =
        ops.iter().map(|op| FullHandle::<bool>::trampoline_symbol(op)).collect();
    for i in 0..symbols.len() {
        for j in 0..symbols.len() {
            if i != j {
                assert_ne!(symbols[i], symbols[j]);
            }
        }
    }
    assert_eq!(symbols[1], "bridge1$full$bool$uninit");
}
