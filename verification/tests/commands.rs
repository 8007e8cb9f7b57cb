use gpu_tour::commands::{Extent, Kernel};

#[test]
fn kernels_declare_their_local_size() {
    assert_eq!(Kernel::Scale.local_size(), Extent { x: 64, y: 1, z: 1 });
    assert_eq!(Kernel::Fractal.local_size(), Extent { x: 8, y: 8, z: 1 });
}

#[test]
fn groups_are_the_quotient_on_each_axis() {
    let image = Extent { x: 1024, y: 1024, z: 1 };
    assert_eq!(image.groups_of(Extent { x: 8, y: 8, z: 1 }), Extent { x: 128, y: 128, z: 1 });
    let line = Extent { x: 65536, y: 1, z: 1 };
    assert_eq!(line.groups_of(Extent { x: 64, y: 1, z: 1 }), Extent { x: 1024, y: 1, z: 1 });
}

#[test]
fn groups_round_down() {
    let odd = Extent { x: 10, y: 7, z: 3 };
    assert_eq!(odd.groups_of(Extent { x: 4, y: 8, z: 3 }), Extent { x: 2, y: 0, z: 1 });
}
