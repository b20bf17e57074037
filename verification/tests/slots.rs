use ruwren::vm::{SlotType, VMConfig};

#[test]
fn string_round_trip() {
    let mut vm = VMConfig::new().build();
    vm.ensure_slots(1);
    vm.set_slot_string(0, "hello");
    assert_eq!(vm.get_slot_string(0), Some(String::from("hello")));
}

#[test]
fn bytes_round_trip() {
    let mut vm = VMConfig::new().build();
    vm.ensure_slots(1);
    vm.set_slot_bytes(0, &[0u8, 255, 1]);
    assert_eq!(vm.get_slot_bytes(0), Some(vec![0u8, 255, 1]));
}

#[test]
fn string_reads_back_as_bytes() {
    let mut vm = VMConfig::new().build();
    vm.ensure_slots(1);
    vm.set_slot_string(0, "hi");
    assert_eq!(vm.get_slot_bytes(0), Some(vec![b'h', b'i']));
}

#[test]
fn invalid_utf8_reads_back_as_no_string() {
    let mut vm = VMConfig::new().build();
    vm.ensure_slots(1);
    vm.set_slot_bytes(0, &[0xff, 0xfe]);
    assert_eq!(vm.get_slot_string(0), None);
    assert_eq!(vm.get_slot_bytes(0), Some(vec![0xff, 0xfe]));
}

#[test]
fn typed_getters_refuse_other_kinds() {
    let mut vm = VMConfig::new().build();
    vm.ensure_slots(2);
    vm.set_slot_bool(0, true);
    vm.set_slot_double(1, 2.5f64.to_bits());
    assert_eq!(vm.get_slot_bool(0), Some(true));
    assert_eq!(vm.get_slot_double(0), None);
    assert_eq!(vm.get_slot_bytes(0), None);
    assert_eq!(vm.get_slot_string(0), None);
    assert_eq!(vm.get_slot_double(1), Some(2.5f64.to_bits()));
    assert_eq!(vm.get_slot_bool(1), None);
}

#[test]
fn slot_types_classify() {
    let mut vm = VMConfig::new().build();
    vm.ensure_slots(4);
    vm.set_slot_double(0, 1.0f64.to_bits());
    vm.set_slot_bool(1, false);
    vm.set_slot_new_list(2);
    vm.set_slot_string(3, "s");
    assert_eq!(vm.get_slot_type(0), SlotType::Num);
    assert_eq!(vm.get_slot_type(1), SlotType::Bool);
    assert_eq!(vm.get_slot_type(2), SlotType::List);
    assert_eq!(vm.get_slot_type(3), SlotType::String);
    vm.set_slot_null(0);
    assert_eq!(vm.get_slot_type(0), SlotType::Null);
}

#[test]
fn ensure_slots_grows_and_keeps_values() {
    let mut vm = VMConfig::new().build();
    assert_eq!(vm.get_slot_count(), 0);
    vm.ensure_slots(2);
    assert_eq!(vm.get_slot_count(), 2);
    vm.set_slot_bool(1, true);
    vm.ensure_slots(4);
    assert_eq!(vm.get_slot_count(), 4);
    assert_eq!(vm.get_slot_bool(1), Some(true));
    assert_eq!(vm.get_slot_type(3), SlotType::Null);
    vm.ensure_slots(1);
    assert_eq!(vm.get_slot_count(), 4);
}

#[test]
fn list_insert_and_read() {
    let mut vm = VMConfig::new().build();
    vm.ensure_slots(3);
    vm.set_slot_new_list(0);
    vm.set_slot_double(1, 10.0f64.to_bits());
    vm.insert_in_list(0, 0, 1);
    vm.set_slot_double(1, 20.0f64.to_bits());
    vm.insert_in_list(0, -1, 1); // -1 appends, per the VM's convention
    vm.set_slot_double(1, 5.0f64.to_bits());
    vm.insert_in_list(0, 0, 1); // prepend
    assert_eq!(vm.get_list_count(0), 3);
    vm.get_list_element(0, 0, 2);
    assert_eq!(vm.get_slot_double(2), Some(5.0f64.to_bits()));
    vm.get_list_element(0, 1, 2);
    assert_eq!(vm.get_slot_double(2), Some(10.0f64.to_bits()));
    vm.get_list_element(0, -1, 2); // -1 reads the last element
    assert_eq!(vm.get_slot_double(2), Some(20.0f64.to_bits()));
}

#[test]
fn handle_captures_value_and_writes_it_back() {
    let mut vm = VMConfig::new().build();
    vm.ensure_slots(2);
    vm.set_slot_string(0, "kept");
    let h = vm.get_slot_handle(0);
    vm.set_slot_string(0, "overwritten");
    vm.set_slot_handle(1, &h);
    assert_eq!(vm.get_slot_string(1), Some(String::from("kept")));
    // Release consumes the handle: a second release cannot even be written.
    vm.release_handle(h);
}

#[test]
fn call_handle_resolves_signature_once() {
    let mut vm = VMConfig::new().build();
    let h = vm.make_call_handle(ruwren::FunctionSignature::new_function("call", 2));
    vm.release_function_handle(h);
}
