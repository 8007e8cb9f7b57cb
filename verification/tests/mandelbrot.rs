use gpu_tour::commands::{Command, Extent, Kernel};
use gpu_tour::mandelbrot::{plan, HEIGHT, IMAGE, READBACK, WIDTH};
use gpu_tour::readback::blank_readback;

#[test]
fn fractal_plan_dispatches_then_copies() {
    assert_eq!(
        plan(),
        vec![
            Command::Dispatch {
                groups: Extent { x: 128, y: 128, z: 1 },
                kernel: Kernel::Fractal,
                target: IMAGE,
            },
            Command::CopyImageToBuffer { image: IMAGE, buffer: READBACK },
        ]
    );
}

#[test]
fn fractal_groups_cover_every_pixel() {
    let local = Kernel::Fractal.local_size();
    assert_eq!(local, Extent { x: 8, y: 8, z: 1 });
    assert_eq!(128 * local.x, WIDTH);
    assert_eq!(128 * local.y, HEIGHT);
}

#[test]
fn fractal_readback_holds_the_image() {
    assert_eq!(blank_readback(WIDTH, HEIGHT).unwrap().len(), 4 * 1024 * 1024);
}
