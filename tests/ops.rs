use lanewise::dispatch::apply;
use lanewise::element::Op;
use lanewise::mixed::mixed_apply;
use lanewise::scalar::scalar_apply;

#[test]
fn mixed_ops() {
    let mut x = [1_u32; 15];
    let y = [2_u32; 15];
    let z = [3_u32; 15];

    let r = mixed_apply::<u32, 8>(Op::Add, &mut x, &y, 0x1000, 0x2000);

    assert_eq!(r, Ok(()));
    assert_eq!(x, z);
}

#[test]
fn scalar_ops() {
    let mut x = [1_u32; 16];
    let y = [2_u32; 16];
    let z = [3_u32; 16];

    let r = scalar_apply(Op::Add, &mut x, &y);

    assert_eq!(r, Ok(()));
    assert_eq!(x, z);
}

#[test]
fn ops() {
    let mut x = [1_u32; 15];
    let y = [2_u32; 15];
    let z = [3_u32; 15];

    let r = apply(Op::Add, &mut x, &y);

    assert_eq!(r, Ok(()));
    assert_eq!(x, z);
}
