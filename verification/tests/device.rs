use gpu_tour::device::{choose_device, first_family, Accelerator, Capability, Choice, QueueFamily};

const BOTH: QueueFamily = QueueFamily { graphics: true, compute: true };
const GRAPHICS: QueueFamily = QueueFamily { graphics: true, compute: false };
const COMPUTE: QueueFamily = QueueFamily { graphics: false, compute: true };
const TRANSFER: QueueFamily = QueueFamily { graphics: false, compute: false };

#[test]
fn family_serves_what_it_supports() {
    assert!(BOTH.can_serve(Capability::Graphics));
    assert!(BOTH.can_serve(Capability::Compute));
    assert!(GRAPHICS.can_serve(Capability::Graphics));
    assert!(!GRAPHICS.can_serve(Capability::Compute));
    assert!(!COMPUTE.can_serve(Capability::Graphics));
    assert!(!TRANSFER.can_serve(Capability::Compute));
}

#[test]
fn first_serving_family_is_found() {
    let families = [TRANSFER, COMPUTE, GRAPHICS, BOTH];
    assert_eq!(first_family(&families, Capability::Graphics), Some(2));
    assert_eq!(first_family(&families, Capability::Compute), Some(1));
    assert_eq!(first_family(&[BOTH, BOTH], Capability::Graphics), Some(0));
}

#[test]
fn no_serving_family_gives_none() {
    assert_eq!(first_family(&[TRANSFER, COMPUTE], Capability::Graphics), None);
    assert_eq!(first_family(&[], Capability::Compute), None);
}

#[test]
fn first_device_with_a_serving_family_is_chosen() {
    let devices = vec![
        Accelerator { families: vec![TRANSFER] },
        Accelerator { families: vec![COMPUTE, TRANSFER] },
        Accelerator { families: vec![TRANSFER, GRAPHICS, BOTH] },
        Accelerator { families: vec![BOTH] },
    ];
    assert_eq!(
        choose_device(&devices, Capability::Graphics),
        Some(Choice { device: 2, family: 1 })
    );
    assert_eq!(
        choose_device(&devices, Capability::Compute),
        Some(Choice { device: 1, family: 0 })
    );
}

#[test]
fn no_device_gives_none() {
    assert_eq!(choose_device(&[], Capability::Graphics), None);
    let devices = vec![Accelerator { families: vec![] }, Accelerator { families: vec![COMPUTE] }];
    assert_eq!(choose_device(&devices, Capability::Graphics), None);
}
