use random::ziggurat::{layer_and_sign, LAYERS};

#[test]
fn layer_and_sign_split() {
    assert_eq!(LAYERS, 128);
    assert_eq!(layer_and_sign(0), (0, false));
    assert_eq!(layer_and_sign(127), (127, false));
    assert_eq!(layer_and_sign(128), (0, true));
    assert_eq!(layer_and_sign(133), (5, true));
    assert_eq!(layer_and_sign(256 + 9), (9, false));
    assert_eq!(layer_and_sign(u64::MAX), (127, true));
}
