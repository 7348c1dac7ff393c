use vrf::dummy::DummyVRF;
use vrf::VRF;

#[test]
fn test_prove() {
    let x = [0; 32];
    let alpha = [0, 0, 0];

    let proof = DummyVRF.prove(&x, &alpha);
    assert_eq!(proof.unwrap(), vec![0]);
}

#[test]
fn test_verify() {
    let y = [0; 33];
    let pi = [0];
    let alpha = [0, 0, 0];

    assert_eq!(DummyVRF.verify(&y, &pi, &alpha).unwrap(), vec![0]);
}

#[test]
fn test_precompute() {
    let y = [0; 33];
    let pi = [0];
    let alpha = [0, 0, 0];

    assert_eq!(
        DummyVRF.precompute(&y, &pi, &alpha).unwrap(),
        [vec![0], vec![0], vec![0], vec![0], vec![0], vec![0]]
    );
}

#[test]
fn test_expand() {
    let pi = [0; 108];
    assert_eq!(DummyVRF.expand(&pi).unwrap(), [vec![0], vec![0], vec![0], vec![0]]);
}
