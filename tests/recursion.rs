use zkvm_core::recursion::{
    Address, BatchFRIBaseVecIo, BatchFRIExtSingleIo, BatchFRIExtVecIo, BatchFRIInstr,
    ExpReverseBitsEvent, ExpReverseBitsInstr, ExpReverseBitsIo, FriFoldBaseIo,
    FriFoldExtSingleIo, FriFoldExtVecIo, FriFoldInstr,
};

fn addrs(v: &[u32]) -> Vec<Address<u32>> {
    v.iter().map(|x| Address(*x)).collect()
}

#[test]
fn address_as_usize() {
    assert_eq!(Address(12345u32).as_usize(), 12345);
}

#[test]
fn exp_reverse_bits_views() {
    let instr = ExpReverseBitsInstr {
        addrs: ExpReverseBitsIo { base: Address(1u32), exp: addrs(&[2, 3, 4]), result: Address(5) },
        mult: 7u32,
    };
    let c = instr.to_c();
    assert_eq!(c.exp_len, 3);
    assert_eq!(c.exp[1], Address(3));
    assert_eq!(*c.base, Address(1));
    assert_eq!(*c.mult, 7);
    let event = ExpReverseBitsEvent { base: 3u32, exp: vec![1, 0, 1], result: 243 };
    let e = event.to_c();
    assert_eq!(e.exp_len, 3);
    assert_eq!(*e.result, 243);
}

#[test]
fn fri_fold_view() {
    let instr = FriFoldInstr {
        base_single_addrs: FriFoldBaseIo { x: Address(1u32) },
        ext_single_addrs: FriFoldExtSingleIo { z: Address(2), alpha: Address(3) },
        ext_vec_addrs: FriFoldExtVecIo {
            mat_opening: addrs(&[4, 5]),
            ps_at_z: addrs(&[6, 7]),
            alpha_pow_input: addrs(&[8, 9]),
            ro_input: addrs(&[10, 11]),
            alpha_pow_output: addrs(&[12, 13]),
            ro_output: addrs(&[14, 15]),
        },
        alpha_pow_mults: vec![1, 1],
        ro_mults: vec![1, 1],
    };
    let c = instr.to_c();
    assert_eq!(c.ext_vec_addrs_ro_output_len, 2);
    assert_eq!(c.ext_vec_addrs_ro_output[1], Address(15));
    assert_eq!(c.alpha_pow_mults_len, 2);
    assert_eq!(c.base_single_addrs.x, Address(1));
}

#[test]
fn batch_fri_view() {
    let instr = BatchFRIInstr {
        base_vec_addrs: BatchFRIBaseVecIo { p_at_x: addrs(&[1, 2, 3]) },
        ext_single_addrs: BatchFRIExtSingleIo { acc: Address(4u32) },
        ext_vec_addrs: BatchFRIExtVecIo { p_at_z: addrs(&[5, 6, 7]), alpha_pow: addrs(&[8, 9, 10]) },
        acc_mult: 1u32,
    };
    let c = instr.to_c();
    assert_eq!(c.base_vec_addrs_p_at_x_len, 3);
    assert_eq!(c.ext_vec_addrs_alpha_pow[2], Address(10));
    assert_eq!(c.ext_single_addrs.acc, Address(4));
    assert_eq!(*c.acc_mult, 1);
}
