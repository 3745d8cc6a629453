//! The Frobenius coefficient tables as executable canonical constants.
//!
//! Each entry is checked against the model tables in `model`, coordinate by
//! coordinate, and shown to be canonical.
use vstd::prelude::*;
use crate::fp::Fp;
use crate::fp2::Fp2;
use crate::lemmas::{lemma_lv6_lt, lemma_lv6_nonneg, lemma_p_pos};
use crate::model::{f12c1, f6c1, f6c2};

verus! {

impl Fp2 {
    /// The table entries behind `f6c1`, as canonical values.
    pub(crate) fn frob6_c1_entry(i: usize) -> (r: Fp2)
        requires
            i < 6,
        ensures
            r.wf(),
            r@ == f6c1(i as int),
    {
        proof {
            lemma_p_pos();
        }
        if i == 0 {
            let r = Fp2 { c0: Fp { l0: 0x1, l1: 0x0, l2: 0x0, l3: 0x0, l4: 0x0, l5: 0x0 }, c1: Fp { l0: 0x0, l1: 0x0, l2: 0x0, l3: 0x0, l4: 0x0, l5: 0x0 } };
            r
        } else if i == 1 {
            let r = Fp2 { c0: Fp { l0: 0x0, l1: 0x0, l2: 0x0, l3: 0x0, l4: 0x0, l5: 0x0 }, c1: Fp { l0: 0x8bfd00000000aaac, l1: 0x409427eb4f49fffd, l2: 0x897d29650fb85f9b, l3: 0xaa0d857d89759ad4, l4: 0xec02408663d4de85, l5: 0x1a0111ea397fe699 } };
            proof {
                lemma_lv6_nonneg(0x8bfd00000000aaac, 0x409427eb4f49fffd, 0x897d29650fb85f9b, 0xaa0d857d89759ad4, 0xec02408663d4de85, 0x1a0111ea397fe699);
                lemma_lv6_lt(0x8bfd00000000aaac, 0x409427eb4f49fffd, 0x897d29650fb85f9b, 0xaa0d857d89759ad4, 0xec02408663d4de85, 0x1a0111ea397fe699, 0xb9feffffffffaaab, 0x1eabfffeb153ffff, 0x6730d2a0f6b0f624, 0x64774b84f38512bf, 0x4b1ba7b6434bacd7, 0x1a0111ea397fe69a);
            }
            r
        } else if i == 2 {
            let r = Fp2 { c0: Fp { l0: 0x2e01fffffffefffe, l1: 0xde17d813620a0002, l2: 0xddb3a93be6f89688, l3: 0xba69c6076a0f77ea, l4: 0x5f19672fdf76ce51, l5: 0x0 }, c1: Fp { l0: 0x0, l1: 0x0, l2: 0x0, l3: 0x0, l4: 0x0, l5: 0x0 } };
            proof {
                lemma_lv6_nonneg(0x2e01fffffffefffe, 0xde17d813620a0002, 0xddb3a93be6f89688, 0xba69c6076a0f77ea, 0x5f19672fdf76ce51, 0x0);
                lemma_lv6_lt(0x2e01fffffffefffe, 0xde17d813620a0002, 0xddb3a93be6f89688, 0xba69c6076a0f77ea, 0x5f19672fdf76ce51, 0x0, 0xb9feffffffffaaab, 0x1eabfffeb153ffff, 0x6730d2a0f6b0f624, 0x64774b84f38512bf, 0x4b1ba7b6434bacd7, 0x1a0111ea397fe69a);
            }
            r
        } else if i == 3 {
            let r = Fp2 { c0: Fp { l0: 0x0, l1: 0x0, l2: 0x0, l3: 0x0, l4: 0x0, l5: 0x0 }, c1: Fp { l0: 0x1, l1: 0x0, l2: 0x0, l3: 0x0, l4: 0x0, l5: 0x0 } };
            r
        } else if i == 4 {
            let r = Fp2 { c0: Fp { l0: 0x8bfd00000000aaac, l1: 0x409427eb4f49fffd, l2: 0x897d29650fb85f9b, l3: 0xaa0d857d89759ad4, l4: 0xec02408663d4de85, l5: 0x1a0111ea397fe699 }, c1: Fp { l0: 0x0, l1: 0x0, l2: 0x0, l3: 0x0, l4: 0x0, l5: 0x0 } };
            proof {
                lemma_lv6_nonneg(0x8bfd00000000aaac, 0x409427eb4f49fffd, 0x897d29650fb85f9b, 0xaa0d857d89759ad4, 0xec02408663d4de85, 0x1a0111ea397fe699);
                lemma_lv6_lt(0x8bfd00000000aaac, 0x409427eb4f49fffd, 0x897d29650fb85f9b, 0xaa0d857d89759ad4, 0xec02408663d4de85, 0x1a0111ea397fe699, 0xb9feffffffffaaab, 0x1eabfffeb153ffff, 0x6730d2a0f6b0f624, 0x64774b84f38512bf, 0x4b1ba7b6434bacd7, 0x1a0111ea397fe69a);
            }
            r
        } else {
            let r = Fp2 { c0: Fp { l0: 0x0, l1: 0x0, l2: 0x0, l3: 0x0, l4: 0x0, l5: 0x0 }, c1: Fp { l0: 0x2e01fffffffefffe, l1: 0xde17d813620a0002, l2: 0xddb3a93be6f89688, l3: 0xba69c6076a0f77ea, l4: 0x5f19672fdf76ce51, l5: 0x0 } };
            proof {
                lemma_lv6_nonneg(0x2e01fffffffefffe, 0xde17d813620a0002, 0xddb3a93be6f89688, 0xba69c6076a0f77ea, 0x5f19672fdf76ce51, 0x0);
                lemma_lv6_lt(0x2e01fffffffefffe, 0xde17d813620a0002, 0xddb3a93be6f89688, 0xba69c6076a0f77ea, 0x5f19672fdf76ce51, 0x0, 0xb9feffffffffaaab, 0x1eabfffeb153ffff, 0x6730d2a0f6b0f624, 0x64774b84f38512bf, 0x4b1ba7b6434bacd7, 0x1a0111ea397fe69a);
            }
            r
        }
    }

    /// The table entries behind `f6c2`, as canonical values.
    pub(crate) fn frob6_c2_entry(i: usize) -> (r: Fp2)
        requires
            i < 6,
        ensures
            r.wf(),
            r@ == f6c2(i as int),
    {
        proof {
            lemma_p_pos();
        }
        if i == 0 {
            let r = Fp2 { c0: Fp { l0: 0x1, l1: 0x0, l2: 0x0, l3: 0x0, l4: 0x0, l5: 0x0 }, c1: Fp { l0: 0x0, l1: 0x0, l2: 0x0, l3: 0x0, l4: 0x0, l5: 0x0 } };
            r
        } else if i == 1 {
            let r = Fp2 { c0: Fp { l0: 0x8bfd00000000aaad, l1: 0x409427eb4f49fffd, l2: 0x897d29650fb85f9b, l3: 0xaa0d857d89759ad4, l4: 0xec02408663d4de85, l5: 0x1a0111ea397fe699 }, c1: Fp { l0: 0x0, l1: 0x0, l2: 0x0, l3: 0x0, l4: 0x0, l5: 0x0 } };
            proof {
                lemma_lv6_nonneg(0x8bfd00000000aaad, 0x409427eb4f49fffd, 0x897d29650fb85f9b, 0xaa0d857d89759ad4, 0xec02408663d4de85, 0x1a0111ea397fe699);
                lemma_lv6_lt(0x8bfd00000000aaad, 0x409427eb4f49fffd, 0x897d29650fb85f9b, 0xaa0d857d89759ad4, 0xec02408663d4de85, 0x1a0111ea397fe699, 0xb9feffffffffaaab, 0x1eabfffeb153ffff, 0x6730d2a0f6b0f624, 0x64774b84f38512bf, 0x4b1ba7b6434bacd7, 0x1a0111ea397fe69a);
            }
            r
        } else if i == 2 {
            let r = Fp2 { c0: Fp { l0: 0x8bfd00000000aaac, l1: 0x409427eb4f49fffd, l2: 0x897d29650fb85f9b, l3: 0xaa0d857d89759ad4, l4: 0xec02408663d4de85, l5: 0x1a0111ea397fe699 }, c1: Fp { l0: 0x0, l1: 0x0, l2: 0x0, l3: 0x0, l4: 0x0, l5: 0x0 } };
            proof {
                lemma_lv6_nonneg(0x8bfd00000000aaac, 0x409427eb4f49fffd, 0x897d29650fb85f9b, 0xaa0d857d89759ad4, 0xec02408663d4de85, 0x1a0111ea397fe699);
                lemma_lv6_lt(0x8bfd00000000aaac, 0x409427eb4f49fffd, 0x897d29650fb85f9b, 0xaa0d857d89759ad4, 0xec02408663d4de85, 0x1a0111ea397fe699, 0xb9feffffffffaaab, 0x1eabfffeb153ffff, 0x6730d2a0f6b0f624, 0x64774b84f38512bf, 0x4b1ba7b6434bacd7, 0x1a0111ea397fe69a);
            }
            r
        } else if i == 3 {
            let r = Fp2 { c0: Fp { l0: 0xb9feffffffffaaaa, l1: 0x1eabfffeb153ffff, l2: 0x6730d2a0f6b0f624, l3: 0x64774b84f38512bf, l4: 0x4b1ba7b6434bacd7, l5: 0x1a0111ea397fe69a }, c1: Fp { l0: 0x0, l1: 0x0, l2: 0x0, l3: 0x0, l4: 0x0, l5: 0x0 } };
            proof {
                lemma_lv6_nonneg(0xb9feffffffffaaaa, 0x1eabfffeb153ffff, 0x6730d2a0f6b0f624, 0x64774b84f38512bf, 0x4b1ba7b6434bacd7, 0x1a0111ea397fe69a);
                lemma_lv6_lt(0xb9feffffffffaaaa, 0x1eabfffeb153ffff, 0x6730d2a0f6b0f624, 0x64774b84f38512bf, 0x4b1ba7b6434bacd7, 0x1a0111ea397fe69a, 0xb9feffffffffaaab, 0x1eabfffeb153ffff, 0x6730d2a0f6b0f624, 0x64774b84f38512bf, 0x4b1ba7b6434bacd7, 0x1a0111ea397fe69a);
            }
            r
        } else if i == 4 {
            let r = Fp2 { c0: Fp { l0: 0x2e01fffffffefffe, l1: 0xde17d813620a0002, l2: 0xddb3a93be6f89688, l3: 0xba69c6076a0f77ea, l4: 0x5f19672fdf76ce51, l5: 0x0 }, c1: Fp { l0: 0x0, l1: 0x0, l2: 0x0, l3: 0x0, l4: 0x0, l5: 0x0 } };
            proof {
                lemma_lv6_nonneg(0x2e01fffffffefffe, 0xde17d813620a0002, 0xddb3a93be6f89688, 0xba69c6076a0f77ea, 0x5f19672fdf76ce51, 0x0);
                lemma_lv6_lt(0x2e01fffffffefffe, 0xde17d813620a0002, 0xddb3a93be6f89688, 0xba69c6076a0f77ea, 0x5f19672fdf76ce51, 0x0, 0xb9feffffffffaaab, 0x1eabfffeb153ffff, 0x6730d2a0f6b0f624, 0x64774b84f38512bf, 0x4b1ba7b6434bacd7, 0x1a0111ea397fe69a);
            }
            r
        } else {
            let r = Fp2 { c0: Fp { l0: 0x2e01fffffffeffff, l1: 0xde17d813620a0002, l2: 0xddb3a93be6f89688, l3: 0xba69c6076a0f77ea, l4: 0x5f19672fdf76ce51, l5: 0x0 }, c1: Fp { l0: 0x0, l1: 0x0, l2: 0x0, l3: 0x0, l4: 0x0, l5: 0x0 } };
            proof {
                lemma_lv6_nonneg(0x2e01fffffffeffff, 0xde17d813620a0002, 0xddb3a93be6f89688, 0xba69c6076a0f77ea, 0x5f19672fdf76ce51, 0x0);
                lemma_lv6_lt(0x2e01fffffffeffff, 0xde17d813620a0002, 0xddb3a93be6f89688, 0xba69c6076a0f77ea, 0x5f19672fdf76ce51, 0x0, 0xb9feffffffffaaab, 0x1eabfffeb153ffff, 0x6730d2a0f6b0f624, 0x64774b84f38512bf, 0x4b1ba7b6434bacd7, 0x1a0111ea397fe69a);
            }
            r
        }
    }

    /// The table entries behind `f12c1`, as canonical values.
    pub(crate) fn frob12_c1_entry(i: usize) -> (r: Fp2)
        requires
            i < 12,
        ensures
            r.wf(),
            r@ == f12c1(i as int),
    {
        proof {
            lemma_p_pos();
        }
        if i == 0 {
            let r = Fp2 { c0: Fp { l0: 0x1, l1: 0x0, l2: 0x0, l3: 0x0, l4: 0x0, l5: 0x0 }, c1: Fp { l0: 0x0, l1: 0x0, l2: 0x0, l3: 0x0, l4: 0x0, l5: 0x0 } };
            r
        } else if i == 1 {
            let r = Fp2 { c0: Fp { l0: 0x8d0775ed92235fb8, l1: 0xf67ea53d63e7813d, l2: 0x7b2443d784bab9c4, l3: 0xfd603fd3cbd5f4f, l4: 0xc231beb4202c0d1f, l5: 0x1904d3bf02bb0667 }, c1: Fp { l0: 0x2cf78a126ddc4af3, l1: 0x282d5ac14d6c7ec2, l2: 0xec0c8ec971f63c5f, l3: 0x54a14787b6c7b36f, l4: 0x88e9e902231f9fb8, l5: 0xfc3e2b36c4e032 } };
            proof {
                lemma_lv6_nonneg(0x8d0775ed92235fb8, 0xf67ea53d63e7813d, 0x7b2443d784bab9c4, 0xfd603fd3cbd5f4f, 0xc231beb4202c0d1f, 0x1904d3bf02bb0667);
                lemma_lv6_lt(0x8d0775ed92235fb8, 0xf67ea53d63e7813d, 0x7b2443d784bab9c4, 0xfd603fd3cbd5f4f, 0xc231beb4202c0d1f, 0x1904d3bf02bb0667, 0xb9feffffffffaaab, 0x1eabfffeb153ffff, 0x6730d2a0f6b0f624, 0x64774b84f38512bf, 0x4b1ba7b6434bacd7, 0x1a0111ea397fe69a);
                lemma_lv6_nonneg(0x2cf78a126ddc4af3, 0x282d5ac14d6c7ec2, 0xec0c8ec971f63c5f, 0x54a14787b6c7b36f, 0x88e9e902231f9fb8, 0xfc3e2b36c4e032);
                lemma_lv6_lt(0x2cf78a126ddc4af3, 0x282d5ac14d6c7ec2, 0xec0c8ec971f63c5f, 0x54a14787b6c7b36f, 0x88e9e902231f9fb8, 0xfc3e2b36c4e032, 0xb9feffffffffaaab, 0x1eabfffeb153ffff, 0x6730d2a0f6b0f624, 0x64774b84f38512bf, 0x4b1ba7b6434bacd7, 0x1a0111ea397fe69a);
            }
            r
        } else if i == 2 {
            let r = Fp2 { c0: Fp { l0: 0x2e01fffffffeffff, l1: 0xde17d813620a0002, l2: 0xddb3a93be6f89688, l3: 0xba69c6076a0f77ea, l4: 0x5f19672fdf76ce51, l5: 0x0 }, c1: Fp { l0: 0x0, l1: 0x0, l2: 0x0, l3: 0x0, l4: 0x0, l5: 0x0 } };
            proof {
                lemma_lv6_nonneg(0x2e01fffffffeffff, 0xde17d813620a0002, 0xddb3a93be6f89688, 0xba69c6076a0f77ea, 0x5f19672fdf76ce51, 0x0);
                lemma_lv6_lt(0x2e01fffffffeffff, 0xde17d813620a0002, 0xddb3a93be6f89688, 0xba69c6076a0f77ea, 0x5f19672fdf76ce51, 0x0, 0xb9feffffffffaaab, 0x1eabfffeb153ffff, 0x6730d2a0f6b0f624, 0x64774b84f38512bf, 0x4b1ba7b6434bacd7, 0x1a0111ea397fe69a);
            }
            r
        } else if i == 3 {
            let r = Fp2 { c0: Fp { l0: 0xf1ee7b04121bdea2, l1: 0x304466cf3e67fa0a, l2: 0xef396489f61eb45e, l3: 0x1c3dedd930b1cf60, l4: 0xe2e9c448d77a2cd9, l5: 0x135203e60180a68e }, c1: Fp { l0: 0xc81084fbede3cc09, l1: 0xee67992f72ec05f4, l2: 0x77f76e17009241c5, l3: 0x48395dabc2d3435e, l4: 0x6831e36d6bd17ffe, l5: 0x6af0e0437ff400b } };
            proof {
                lemma_lv6_nonneg(0xf1ee7b04121bdea2, 0x304466cf3e67fa0a, 0xef396489f61eb45e, 0x1c3dedd930b1cf60, 0xe2e9c448d77a2cd9, 0x135203e60180a68e);
                lemma_lv6_lt(0xf1ee7b04121bdea2, 0x304466cf3e67fa0a, 0xef396489f61eb45e, 0x1c3dedd930b1cf60, 0xe2e9c448d77a2cd9, 0x135203e60180a68e, 0xb9feffffffffaaab, 0x1eabfffeb153ffff, 0x6730d2a0f6b0f624, 0x64774b84f38512bf, 0x4b1ba7b6434bacd7, 0x1a0111ea397fe69a);
                lemma_lv6_nonneg(0xc81084fbede3cc09, 0xee67992f72ec05f4, 0x77f76e17009241c5, 0x48395dabc2d3435e, 0x6831e36d6bd17ffe, 0x6af0e0437ff400b);
                lemma_lv6_lt(0xc81084fbede3cc09, 0xee67992f72ec05f4, 0x77f76e17009241c5, 0x48395dabc2d3435e, 0x6831e36d6bd17ffe, 0x6af0e0437ff400b, 0xb9feffffffffaaab, 0x1eabfffeb153ffff, 0x6730d2a0f6b0f624, 0x64774b84f38512bf, 0x4b1ba7b6434bacd7, 0x1a0111ea397fe69a);
            }
            r
        } else if i == 4 {
            let r = Fp2 { c0: Fp { l0: 0x2e01fffffffefffe, l1: 0xde17d813620a0002, l2: 0xddb3a93be6f89688, l3: 0xba69c6076a0f77ea, l4: 0x5f19672fdf76ce51, l5: 0x0 }, c1: Fp { l0: 0x0, l1: 0x0, l2: 0x0, l3: 0x0, l4: 0x0, l5: 0x0 } };
            proof {
                lemma_lv6_nonneg(0x2e01fffffffefffe, 0xde17d813620a0002, 0xddb3a93be6f89688, 0xba69c6076a0f77ea, 0x5f19672fdf76ce51, 0x0);
                lemma_lv6_lt(0x2e01fffffffefffe, 0xde17d813620a0002, 0xddb3a93be6f89688, 0xba69c6076a0f77ea, 0x5f19672fdf76ce51, 0x0, 0xb9feffffffffaaab, 0x1eabfffeb153ffff, 0x6730d2a0f6b0f624, 0x64774b84f38512bf, 0x4b1ba7b6434bacd7, 0x1a0111ea397fe69a);
            }
            r
        } else if i == 5 {
            let r = Fp2 { c0: Fp { l0: 0x1ee605167ff82995, l1: 0x5871c1908bd478cd, l2: 0xdb45f3536814f0bd, l3: 0x70df3560e77982d0, l4: 0x6bd3ad4afa99cc91, l5: 0x144e4211384586c1 }, c1: Fp { l0: 0x9b18fae980078116, l1: 0xc63a3e6e257f8732, l2: 0x8beadf4d8e9c0566, l3: 0xf39816240c0b8fee, l4: 0xdf47fa6b48b1e045, l5: 0x5b2cfd9013a5fd8 } };
            proof {
                lemma_lv6_nonneg(0x1ee605167ff82995, 0x5871c1908bd478cd, 0xdb45f3536814f0bd, 0x70df3560e77982d0, 0x6bd3ad4afa99cc91, 0x144e4211384586c1);
                lemma_lv6_lt(0x1ee605167ff82995, 0x5871c1908bd478cd, 0xdb45f3536814f0bd, 0x70df3560e77982d0, 0x6bd3ad4afa99cc91, 0x144e4211384586c1, 0xb9feffffffffaaab, 0x1eabfffeb153ffff, 0x6730d2a0f6b0f624, 0x64774b84f38512bf, 0x4b1ba7b6434bacd7, 0x1a0111ea397fe69a);
                lemma_lv6_nonneg(0x9b18fae980078116, 0xc63a3e6e257f8732, 0x8beadf4d8e9c0566, 0xf39816240c0b8fee, 0xdf47fa6b48b1e045, 0x5b2cfd9013a5fd8);
                lemma_lv6_lt(0x9b18fae980078116, 0xc63a3e6e257f8732, 0x8beadf4d8e9c0566, 0xf39816240c0b8fee, 0xdf47fa6b48b1e045, 0x5b2cfd9013a5fd8, 0xb9feffffffffaaab, 0x1eabfffeb153ffff, 0x6730d2a0f6b0f624, 0x64774b84f38512bf, 0x4b1ba7b6434bacd7, 0x1a0111ea397fe69a);
            }
            r
        } else if i == 6 {
            let r = Fp2 { c0: Fp { l0: 0xb9feffffffffaaaa, l1: 0x1eabfffeb153ffff, l2: 0x6730d2a0f6b0f624, l3: 0x64774b84f38512bf, l4: 0x4b1ba7b6434bacd7, l5: 0x1a0111ea397fe69a }, c1: Fp { l0: 0x0, l1: 0x0, l2: 0x0, l3: 0x0, l4: 0x0, l5: 0x0 } };
            proof {
                lemma_lv6_nonneg(0xb9feffffffffaaaa, 0x1eabfffeb153ffff, 0x6730d2a0f6b0f624, 0x64774b84f38512bf, 0x4b1ba7b6434bacd7, 0x1a0111ea397fe69a);
                lemma_lv6_lt(0xb9feffffffffaaaa, 0x1eabfffeb153ffff, 0x6730d2a0f6b0f624, 0x64774b84f38512bf, 0x4b1ba7b6434bacd7, 0x1a0111ea397fe69a, 0xb9feffffffffaaab, 0x1eabfffeb153ffff, 0x6730d2a0f6b0f624, 0x64774b84f38512bf, 0x4b1ba7b6434bacd7, 0x1a0111ea397fe69a);
            }
            r
        } else if i == 7 {
            let r = Fp2 { c0: Fp { l0: 0x2cf78a126ddc4af3, l1: 0x282d5ac14d6c7ec2, l2: 0xec0c8ec971f63c5f, l3: 0x54a14787b6c7b36f, l4: 0x88e9e902231f9fb8, l5: 0xfc3e2b36c4e032 }, c1: Fp { l0: 0x8d0775ed92235fb8, l1: 0xf67ea53d63e7813d, l2: 0x7b2443d784bab9c4, l3: 0xfd603fd3cbd5f4f, l4: 0xc231beb4202c0d1f, l5: 0x1904d3bf02bb0667 } };
            proof {
                lemma_lv6_nonneg(0x2cf78a126ddc4af3, 0x282d5ac14d6c7ec2, 0xec0c8ec971f63c5f, 0x54a14787b6c7b36f, 0x88e9e902231f9fb8, 0xfc3e2b36c4e032);
                lemma_lv6_lt(0x2cf78a126ddc4af3, 0x282d5ac14d6c7ec2, 0xec0c8ec971f63c5f, 0x54a14787b6c7b36f, 0x88e9e902231f9fb8, 0xfc3e2b36c4e032, 0xb9feffffffffaaab, 0x1eabfffeb153ffff, 0x6730d2a0f6b0f624, 0x64774b84f38512bf, 0x4b1ba7b6434bacd7, 0x1a0111ea397fe69a);
                lemma_lv6_nonneg(0x8d0775ed92235fb8, 0xf67ea53d63e7813d, 0x7b2443d784bab9c4, 0xfd603fd3cbd5f4f, 0xc231beb4202c0d1f, 0x1904d3bf02bb0667);
                lemma_lv6_lt(0x8d0775ed92235fb8, 0xf67ea53d63e7813d, 0x7b2443d784bab9c4, 0xfd603fd3cbd5f4f, 0xc231beb4202c0d1f, 0x1904d3bf02bb0667, 0xb9feffffffffaaab, 0x1eabfffeb153ffff, 0x6730d2a0f6b0f624, 0x64774b84f38512bf, 0x4b1ba7b6434bacd7, 0x1a0111ea397fe69a);
            }
            r
        } else if i == 8 {
            let r = Fp2 { c0: Fp { l0: 0x8bfd00000000aaac, l1: 0x409427eb4f49fffd, l2: 0x897d29650fb85f9b, l3: 0xaa0d857d89759ad4, l4: 0xec02408663d4de85, l5: 0x1a0111ea397fe699 }, c1: Fp { l0: 0x0, l1: 0x0, l2: 0x0, l3: 0x0, l4: 0x0, l5: 0x0 } };
            proof {
                lemma_lv6_nonneg(0x8bfd00000000aaac, 0x409427eb4f49fffd, 0x897d29650fb85f9b, 0xaa0d857d89759ad4, 0xec02408663d4de85, 0x1a0111ea397fe699);
                lemma_lv6_lt(0x8bfd00000000aaac, 0x409427eb4f49fffd, 0x897d29650fb85f9b, 0xaa0d857d89759ad4, 0xec02408663d4de85, 0x1a0111ea397fe699, 0xb9feffffffffaaab, 0x1eabfffeb153ffff, 0x6730d2a0f6b0f624, 0x64774b84f38512bf, 0x4b1ba7b6434bacd7, 0x1a0111ea397fe69a);
            }
            r
        } else if i == 9 {
            let r = Fp2 { c0: Fp { l0: 0xc81084fbede3cc09, l1: 0xee67992f72ec05f4, l2: 0x77f76e17009241c5, l3: 0x48395dabc2d3435e, l4: 0x6831e36d6bd17ffe, l5: 0x6af0e0437ff400b }, c1: Fp { l0: 0xf1ee7b04121bdea2, l1: 0x304466cf3e67fa0a, l2: 0xef396489f61eb45e, l3: 0x1c3dedd930b1cf60, l4: 0xe2e9c448d77a2cd9, l5: 0x135203e60180a68e } };
            proof {
                lemma_lv6_nonneg(0xc81084fbede3cc09, 0xee67992f72ec05f4, 0x77f76e17009241c5, 0x48395dabc2d3435e, 0x6831e36d6bd17ffe, 0x6af0e0437ff400b);
                lemma_lv6_lt(0xc81084fbede3cc09, 0xee67992f72ec05f4, 0x77f76e17009241c5, 0x48395dabc2d3435e, 0x6831e36d6bd17ffe, 0x6af0e0437ff400b, 0xb9feffffffffaaab, 0x1eabfffeb153ffff, 0x6730d2a0f6b0f624, 0x64774b84f38512bf, 0x4b1ba7b6434bacd7, 0x1a0111ea397fe69a);
                lemma_lv6_nonneg(0xf1ee7b04121bdea2, 0x304466cf3e67fa0a, 0xef396489f61eb45e, 0x1c3dedd930b1cf60, 0xe2e9c448d77a2cd9, 0x135203e60180a68e);
                lemma_lv6_lt(0xf1ee7b04121bdea2, 0x304466cf3e67fa0a, 0xef396489f61eb45e, 0x1c3dedd930b1cf60, 0xe2e9c448d77a2cd9, 0x135203e60180a68e, 0xb9feffffffffaaab, 0x1eabfffeb153ffff, 0x6730d2a0f6b0f624, 0x64774b84f38512bf, 0x4b1ba7b6434bacd7, 0x1a0111ea397fe69a);
            }
            r
        } else if i == 10 {
            let r = Fp2 { c0: Fp { l0: 0x8bfd00000000aaad, l1: 0x409427eb4f49fffd, l2: 0x897d29650fb85f9b, l3: 0xaa0d857d89759ad4, l4: 0xec02408663d4de85, l5: 0x1a0111ea397fe699 }, c1: Fp { l0: 0x0, l1: 0x0, l2: 0x0, l3: 0x0, l4: 0x0, l5: 0x0 } };
            proof {
                lemma_lv6_nonneg(0x8bfd00000000aaad, 0x409427eb4f49fffd, 0x897d29650fb85f9b, 0xaa0d857d89759ad4, 0xec02408663d4de85, 0x1a0111ea397fe699);
                lemma_lv6_lt(0x8bfd00000000aaad, 0x409427eb4f49fffd, 0x897d29650fb85f9b, 0xaa0d857d89759ad4, 0xec02408663d4de85, 0x1a0111ea397fe699, 0xb9feffffffffaaab, 0x1eabfffeb153ffff, 0x6730d2a0f6b0f624, 0x64774b84f38512bf, 0x4b1ba7b6434bacd7, 0x1a0111ea397fe69a);
            }
            r
        } else {
            let r = Fp2 { c0: Fp { l0: 0x9b18fae980078116, l1: 0xc63a3e6e257f8732, l2: 0x8beadf4d8e9c0566, l3: 0xf39816240c0b8fee, l4: 0xdf47fa6b48b1e045, l5: 0x5b2cfd9013a5fd8 }, c1: Fp { l0: 0x1ee605167ff82995, l1: 0x5871c1908bd478cd, l2: 0xdb45f3536814f0bd, l3: 0x70df3560e77982d0, l4: 0x6bd3ad4afa99cc91, l5: 0x144e4211384586c1 } };
            proof {
                lemma_lv6_nonneg(0x9b18fae980078116, 0xc63a3e6e257f8732, 0x8beadf4d8e9c0566, 0xf39816240c0b8fee, 0xdf47fa6b48b1e045, 0x5b2cfd9013a5fd8);
                lemma_lv6_lt(0x9b18fae980078116, 0xc63a3e6e257f8732, 0x8beadf4d8e9c0566, 0xf39816240c0b8fee, 0xdf47fa6b48b1e045, 0x5b2cfd9013a5fd8, 0xb9feffffffffaaab, 0x1eabfffeb153ffff, 0x6730d2a0f6b0f624, 0x64774b84f38512bf, 0x4b1ba7b6434bacd7, 0x1a0111ea397fe69a);
                lemma_lv6_nonneg(0x1ee605167ff82995, 0x5871c1908bd478cd, 0xdb45f3536814f0bd, 0x70df3560e77982d0, 0x6bd3ad4afa99cc91, 0x144e4211384586c1);
                lemma_lv6_lt(0x1ee605167ff82995, 0x5871c1908bd478cd, 0xdb45f3536814f0bd, 0x70df3560e77982d0, 0x6bd3ad4afa99cc91, 0x144e4211384586c1, 0xb9feffffffffaaab, 0x1eabfffeb153ffff, 0x6730d2a0f6b0f624, 0x64774b84f38512bf, 0x4b1ba7b6434bacd7, 0x1a0111ea397fe69a);
            }
            r
        }
    }
}

} // verus!
