use cosi::runtime::RuntimeService;

#[test]
fn get_string_stops_at_first_nul() {
    let mut field = [0u8; 20];
    field[..4].copy_from_slice(b"acpi");
    assert_eq!(cosi::acpi::get_string(&field), "acpi");
}

#[test]
fn get_string_without_nul_takes_everything() {
    let field = *b"sda";
    assert_eq!(cosi::disk::get_string(&field), "sda");
}

#[test]
fn get_string_replaces_invalid_utf8() {
    // An invalid byte is replaced, not echoed: the decoding really decodes.
    let field = [b'a', 0xFF, b'b', 0, b'x'];
    assert_eq!(cosi::disk::get_string(&field), "a\u{FFFD}b");
}

#[test]
fn get_string_of_empty_field_is_empty() {
    let field: [u8; 0] = [];
    assert_eq!(cosi::acpi::get_string(&field), "");
    let nuls = [0u8; 15];
    assert_eq!(cosi::acpi::get_string(&nuls), "");
}

#[test]
fn acpi_event_fields() {
    let mut event = cosi::acpi::Event { device_class: [0; 20], bus_id: [0; 15] };
    event.device_class[..7].copy_from_slice(b"battery");
    event.bus_id[..4].copy_from_slice(b"PNP0");
    assert_eq!(cosi::acpi::get_string(&event.device_class), "battery");
    assert_eq!(cosi::acpi::get_string(&event.bus_id), "PNP0");
}

#[test]
fn disk_event_fields() {
    let mut event = cosi::disk::Event {
        major: 8,
        first_minor: 0,
        minors: 16,
        disk_name: [0; 32],
        operation: [0; cosi::disk::OPERATION_LEN],
    };
    event.disk_name[..3].copy_from_slice(b"sda");
    event.operation[..3].copy_from_slice(b"add");
    assert_eq!(cosi::disk::get_string(&event.disk_name), "sda");
    assert_eq!(cosi::disk::get_string(&event.operation), "add");
    assert_eq!(event.major, 8);
}

#[test]
fn probe_images_are_empty_here() {
    assert!(cosi::acpi::probe_code().is_empty());
    assert!(cosi::disk::probe_code().is_empty());
}

#[test]
fn controller_token_echoes_the_name() {
    let service = RuntimeService::new();
    let token = service.register_controller(String::from("test"));
    assert_eq!(token, "test");
}

#[test]
fn resource_instance_carries_its_fields() {
    let resource = cosi::ResourceInstance {
        api: String::from("cosi"),
        version: String::from("v1alpha1"),
        resource_type: String::from("TestStatus"),
        namespace: String::from("system"),
        id: String::from("test"),
        spec: String::from("phase: running"),
    };
    assert_eq!(resource.version, "v1alpha1");
    assert_eq!(resource.spec, "phase: running");
}
