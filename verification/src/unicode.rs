//! Character classes used by the fence and directive grammars.
//!
//! `is_white_space` is the Unicode `White_Space` property and
//! `is_word_char` is the Unicode "word character" class (alphabetic
//! characters, marks, decimal numbers, connector punctuation and join
//! controls), both as of Unicode 16.0.

use vstd::prelude::*;

verus! {

/// The Unicode `White_Space` property.
pub open spec fn is_white_space(c: char) -> bool {
    let v = c as u32;
    ||| (0x9 <= v && v <= 0xd)
    ||| v == 0x20
    ||| v == 0x85
    ||| v == 0xa0
    ||| v == 0x1680
    ||| (0x2000 <= v && v <= 0x200a)
    ||| (0x2028 <= v && v <= 0x2029)
    ||| v == 0x202f
    ||| v == 0x205f
    ||| v == 0x3000
}

/// Decides `is_white_space`.
pub fn white_space(c: char) -> (b: bool)
    ensures
        b == is_white_space(c),
{
    let v = c as u32;
    (0x9 <= v && v <= 0xd) || v == 0x20 || v == 0x85 || v == 0xa0 || v == 0x1680 || (0x2000 <= v
        && v <= 0x200a) || (0x2028 <= v && v <= 0x2029) || v == 0x202f || v == 0x205f || v
        == 0x3000
}

/// The Unicode word-character class, as a table of code point ranges.
#[verifier::opaque]
pub open spec fn is_word_char(c: char) -> bool {
    word_table(c as u32)
}

/// Membership of a code point in the word-character table.
#[verifier::opaque]
pub open spec fn word_table(v: u32) -> bool {
    if v < 0xfb00 {
        if v < 0xf49 {
            if v < 0xacb {
                if v < 0x840 {
                    if v < 0x483 {
                        if v < 0xd8 {
                            (0x30 <= v && v <= 0x39) || (0x41 <= v && v <= 0x5a) || v == 0x5f || (0x61 <= v && v <= 0x7a) || v == 0xaa || v == 0xb5 || v == 0xba || (0xc0 <= v && v <= 0xd6)
                        } else {
                            if v < 0x37a {
                                (0xd8 <= v && v <= 0xf6) || (0xf8 <= v && v <= 0x2c1) || (0x2c6 <= v && v <= 0x2d1) || (0x2e0 <= v && v <= 0x2e4) || v == 0x2ec || v == 0x2ee || (0x300 <= v && v <= 0x374) || (0x376 <= v && v <= 0x377)
                            } else {
                                (0x37a <= v && v <= 0x37d) || v == 0x37f || v == 0x386 || (0x388 <= v && v <= 0x38a) || v == 0x38c || (0x38e <= v && v <= 0x3a1) || (0x3a3 <= v && v <= 0x3f5) || (0x3f7 <= v && v <= 0x481)
                            }
                        }
                    } else {
                        if v < 0x5c7 {
                            (0x483 <= v && v <= 0x52f) || (0x531 <= v && v <= 0x556) || v == 0x559 || (0x560 <= v && v <= 0x588) || (0x591 <= v && v <= 0x5bd) || v == 0x5bf || (0x5c1 <= v && v <= 0x5c2) || (0x5c4 <= v && v <= 0x5c5)
                        } else {
                            if v < 0x6ea {
                                v == 0x5c7 || (0x5d0 <= v && v <= 0x5ea) || (0x5ef <= v && v <= 0x5f2) || (0x610 <= v && v <= 0x61a) || (0x620 <= v && v <= 0x669) || (0x66e <= v && v <= 0x6d3) || (0x6d5 <= v && v <= 0x6dc) || (0x6df <= v && v <= 0x6e8)
                            } else {
                                (0x6ea <= v && v <= 0x6fc) || v == 0x6ff || (0x710 <= v && v <= 0x74a) || (0x74d <= v && v <= 0x7b1) || (0x7c0 <= v && v <= 0x7f5) || v == 0x7fa || v == 0x7fd || (0x800 <= v && v <= 0x82d)
                            }
                        }
                    }
                } else {
                    if v < 0xa05 {
                        if v < 0x985 {
                            (0x840 <= v && v <= 0x85b) || (0x860 <= v && v <= 0x86a) || (0x870 <= v && v <= 0x887) || (0x889 <= v && v <= 0x88e) || (0x897 <= v && v <= 0x8e1) || (0x8e3 <= v && v <= 0x963) || (0x966 <= v && v <= 0x96f) || (0x971 <= v && v <= 0x983)
                        } else {
                            if v < 0x9cb {
                                (0x985 <= v && v <= 0x98c) || (0x98f <= v && v <= 0x990) || (0x993 <= v && v <= 0x9a8) || (0x9aa <= v && v <= 0x9b0) || v == 0x9b2 || (0x9b6 <= v && v <= 0x9b9) || (0x9bc <= v && v <= 0x9c4) || (0x9c7 <= v && v <= 0x9c8)
                            } else {
                                (0x9cb <= v && v <= 0x9ce) || v == 0x9d7 || (0x9dc <= v && v <= 0x9dd) || (0x9df <= v && v <= 0x9e3) || (0x9e6 <= v && v <= 0x9f1) || v == 0x9fc || v == 0x9fe || (0xa01 <= v && v <= 0xa03)
                            }
                        }
                    } else {
                        if v < 0xa3e {
                            (0xa05 <= v && v <= 0xa0a) || (0xa0f <= v && v <= 0xa10) || (0xa13 <= v && v <= 0xa28) || (0xa2a <= v && v <= 0xa30) || (0xa32 <= v && v <= 0xa33) || (0xa35 <= v && v <= 0xa36) || (0xa38 <= v && v <= 0xa39) || v == 0xa3c
                        } else {
                            if v < 0xa85 {
                                (0xa3e <= v && v <= 0xa42) || (0xa47 <= v && v <= 0xa48) || (0xa4b <= v && v <= 0xa4d) || v == 0xa51 || (0xa59 <= v && v <= 0xa5c) || v == 0xa5e || (0xa66 <= v && v <= 0xa75) || (0xa81 <= v && v <= 0xa83)
                            } else {
                                (0xa85 <= v && v <= 0xa8d) || (0xa8f <= v && v <= 0xa91) || (0xa93 <= v && v <= 0xaa8) || (0xaaa <= v && v <= 0xab0) || (0xab2 <= v && v <= 0xab3) || (0xab5 <= v && v <= 0xab9) || (0xabc <= v && v <= 0xac5) || (0xac7 <= v && v <= 0xac9)
                            }
                        }
                    }
                }
            } else {
                if v < 0xc80 {
                    if v < 0xb99 {
                        if v < 0xb13 {
                            (0xacb <= v && v <= 0xacd) || v == 0xad0 || (0xae0 <= v && v <= 0xae3) || (0xae6 <= v && v <= 0xaef) || (0xaf9 <= v && v <= 0xaff) || (0xb01 <= v && v <= 0xb03) || (0xb05 <= v && v <= 0xb0c) || (0xb0f <= v && v <= 0xb10)
                        } else {
                            if v < 0xb5c {
                                (0xb13 <= v && v <= 0xb28) || (0xb2a <= v && v <= 0xb30) || (0xb32 <= v && v <= 0xb33) || (0xb35 <= v && v <= 0xb39) || (0xb3c <= v && v <= 0xb44) || (0xb47 <= v && v <= 0xb48) || (0xb4b <= v && v <= 0xb4d) || (0xb55 <= v && v <= 0xb57)
                            } else {
                                (0xb5c <= v && v <= 0xb5d) || (0xb5f <= v && v <= 0xb63) || (0xb66 <= v && v <= 0xb6f) || v == 0xb71 || (0xb82 <= v && v <= 0xb83) || (0xb85 <= v && v <= 0xb8a) || (0xb8e <= v && v <= 0xb90) || (0xb92 <= v && v <= 0xb95)
                            }
                        }
                    } else {
                        if v < 0xbca {
                            (0xb99 <= v && v <= 0xb9a) || v == 0xb9c || (0xb9e <= v && v <= 0xb9f) || (0xba3 <= v && v <= 0xba4) || (0xba8 <= v && v <= 0xbaa) || (0xbae <= v && v <= 0xbb9) || (0xbbe <= v && v <= 0xbc2) || (0xbc6 <= v && v <= 0xbc8)
                        } else {
                            if v < 0xc3c {
                                (0xbca <= v && v <= 0xbcd) || v == 0xbd0 || v == 0xbd7 || (0xbe6 <= v && v <= 0xbef) || (0xc00 <= v && v <= 0xc0c) || (0xc0e <= v && v <= 0xc10) || (0xc12 <= v && v <= 0xc28) || (0xc2a <= v && v <= 0xc39)
                            } else {
                                (0xc3c <= v && v <= 0xc44) || (0xc46 <= v && v <= 0xc48) || (0xc4a <= v && v <= 0xc4d) || (0xc55 <= v && v <= 0xc56) || (0xc58 <= v && v <= 0xc5a) || v == 0xc5d || (0xc60 <= v && v <= 0xc63) || (0xc66 <= v && v <= 0xc6f)
                            }
                        }
                    }
                } else {
                    if v < 0xd85 {
                        if v < 0xcca {
                            (0xc80 <= v && v <= 0xc83) || (0xc85 <= v && v <= 0xc8c) || (0xc8e <= v && v <= 0xc90) || (0xc92 <= v && v <= 0xca8) || (0xcaa <= v && v <= 0xcb3) || (0xcb5 <= v && v <= 0xcb9) || (0xcbc <= v && v <= 0xcc4) || (0xcc6 <= v && v <= 0xcc8)
                        } else {
                            if v < 0xd12 {
                                (0xcca <= v && v <= 0xccd) || (0xcd5 <= v && v <= 0xcd6) || (0xcdd <= v && v <= 0xcde) || (0xce0 <= v && v <= 0xce3) || (0xce6 <= v && v <= 0xcef) || (0xcf1 <= v && v <= 0xcf3) || (0xd00 <= v && v <= 0xd0c) || (0xd0e <= v && v <= 0xd10)
                            } else {
                                (0xd12 <= v && v <= 0xd44) || (0xd46 <= v && v <= 0xd48) || (0xd4a <= v && v <= 0xd4e) || (0xd54 <= v && v <= 0xd57) || (0xd5f <= v && v <= 0xd63) || (0xd66 <= v && v <= 0xd6f) || (0xd7a <= v && v <= 0xd7f) || (0xd81 <= v && v <= 0xd83)
                            }
                        }
                    } else {
                        if v < 0xe86 {
                            if v < 0xdd8 {
                                (0xd85 <= v && v <= 0xd96) || (0xd9a <= v && v <= 0xdb1) || (0xdb3 <= v && v <= 0xdbb) || v == 0xdbd || (0xdc0 <= v && v <= 0xdc6) || v == 0xdca || (0xdcf <= v && v <= 0xdd4) || v == 0xdd6
                            } else {
                                (0xdd8 <= v && v <= 0xddf) || (0xde6 <= v && v <= 0xdef) || (0xdf2 <= v && v <= 0xdf3) || (0xe01 <= v && v <= 0xe3a) || (0xe40 <= v && v <= 0xe4e) || (0xe50 <= v && v <= 0xe59) || (0xe81 <= v && v <= 0xe82) || v == 0xe84
                            }
                        } else {
                            if v < 0xedc {
                                (0xe86 <= v && v <= 0xe8a) || (0xe8c <= v && v <= 0xea3) || v == 0xea5 || (0xea7 <= v && v <= 0xebd) || (0xec0 <= v && v <= 0xec4) || v == 0xec6 || (0xec8 <= v && v <= 0xece) || (0xed0 <= v && v <= 0xed9)
                            } else {
                                (0xedc <= v && v <= 0xedf) || v == 0xf00 || (0xf18 <= v && v <= 0xf19) || (0xf20 <= v && v <= 0xf29) || v == 0xf35 || v == 0xf37 || v == 0xf39 || (0xf3e <= v && v <= 0xf47)
                            }
                        }
                    }
                }
            }
        } else {
            if v < 0x1ff6 {
                if v < 0x1820 {
                    if v < 0x12d8 {
                        if v < 0x10c7 {
                            (0xf49 <= v && v <= 0xf6c) || (0xf71 <= v && v <= 0xf84) || (0xf86 <= v && v <= 0xf97) || (0xf99 <= v && v <= 0xfbc) || v == 0xfc6 || (0x1000 <= v && v <= 0x1049) || (0x1050 <= v && v <= 0x109d) || (0x10a0 <= v && v <= 0x10c5)
                        } else {
                            if v < 0x1260 {
                                v == 0x10c7 || v == 0x10cd || (0x10d0 <= v && v <= 0x10fa) || (0x10fc <= v && v <= 0x1248) || (0x124a <= v && v <= 0x124d) || (0x1250 <= v && v <= 0x1256) || v == 0x1258 || (0x125a <= v && v <= 0x125d)
                            } else {
                                (0x1260 <= v && v <= 0x1288) || (0x128a <= v && v <= 0x128d) || (0x1290 <= v && v <= 0x12b0) || (0x12b2 <= v && v <= 0x12b5) || (0x12b8 <= v && v <= 0x12be) || v == 0x12c0 || (0x12c2 <= v && v <= 0x12c5) || (0x12c8 <= v && v <= 0x12d6)
                            }
                        }
                    } else {
                        if v < 0x166f {
                            (0x12d8 <= v && v <= 0x1310) || (0x1312 <= v && v <= 0x1315) || (0x1318 <= v && v <= 0x135a) || (0x135d <= v && v <= 0x135f) || (0x1380 <= v && v <= 0x138f) || (0x13a0 <= v && v <= 0x13f5) || (0x13f8 <= v && v <= 0x13fd) || (0x1401 <= v && v <= 0x166c)
                        } else {
                            if v < 0x176e {
                                (0x166f <= v && v <= 0x167f) || (0x1681 <= v && v <= 0x169a) || (0x16a0 <= v && v <= 0x16ea) || (0x16ee <= v && v <= 0x16f8) || (0x1700 <= v && v <= 0x1715) || (0x171f <= v && v <= 0x1734) || (0x1740 <= v && v <= 0x1753) || (0x1760 <= v && v <= 0x176c)
                            } else {
                                (0x176e <= v && v <= 0x1770) || (0x1772 <= v && v <= 0x1773) || (0x1780 <= v && v <= 0x17d3) || v == 0x17d7 || (0x17dc <= v && v <= 0x17dd) || (0x17e0 <= v && v <= 0x17e9) || (0x180b <= v && v <= 0x180d) || (0x180f <= v && v <= 0x1819)
                            }
                        }
                    }
                } else {
                    if v < 0x1c4d {
                        if v < 0x1980 {
                            (0x1820 <= v && v <= 0x1878) || (0x1880 <= v && v <= 0x18aa) || (0x18b0 <= v && v <= 0x18f5) || (0x1900 <= v && v <= 0x191e) || (0x1920 <= v && v <= 0x192b) || (0x1930 <= v && v <= 0x193b) || (0x1946 <= v && v <= 0x196d) || (0x1970 <= v && v <= 0x1974)
                        } else {
                            if v < 0x1aa7 {
                                (0x1980 <= v && v <= 0x19ab) || (0x19b0 <= v && v <= 0x19c9) || (0x19d0 <= v && v <= 0x19d9) || (0x1a00 <= v && v <= 0x1a1b) || (0x1a20 <= v && v <= 0x1a5e) || (0x1a60 <= v && v <= 0x1a7c) || (0x1a7f <= v && v <= 0x1a89) || (0x1a90 <= v && v <= 0x1a99)
                            } else {
                                v == 0x1aa7 || (0x1ab0 <= v && v <= 0x1ace) || (0x1b00 <= v && v <= 0x1b4c) || (0x1b50 <= v && v <= 0x1b59) || (0x1b6b <= v && v <= 0x1b73) || (0x1b80 <= v && v <= 0x1bf3) || (0x1c00 <= v && v <= 0x1c37) || (0x1c40 <= v && v <= 0x1c49)
                            }
                        }
                    } else {
                        if v < 0x1f20 {
                            (0x1c4d <= v && v <= 0x1c7d) || (0x1c80 <= v && v <= 0x1c8a) || (0x1c90 <= v && v <= 0x1cba) || (0x1cbd <= v && v <= 0x1cbf) || (0x1cd0 <= v && v <= 0x1cd2) || (0x1cd4 <= v && v <= 0x1cfa) || (0x1d00 <= v && v <= 0x1f15) || (0x1f18 <= v && v <= 0x1f1d)
                        } else {
                            if v < 0x1fb6 {
                                (0x1f20 <= v && v <= 0x1f45) || (0x1f48 <= v && v <= 0x1f4d) || (0x1f50 <= v && v <= 0x1f57) || v == 0x1f59 || v == 0x1f5b || v == 0x1f5d || (0x1f5f <= v && v <= 0x1f7d) || (0x1f80 <= v && v <= 0x1fb4)
                            } else {
                                (0x1fb6 <= v && v <= 0x1fbc) || v == 0x1fbe || (0x1fc2 <= v && v <= 0x1fc4) || (0x1fc6 <= v && v <= 0x1fcc) || (0x1fd0 <= v && v <= 0x1fd3) || (0x1fd6 <= v && v <= 0x1fdb) || (0x1fe0 <= v && v <= 0x1fec) || (0x1ff2 <= v && v <= 0x1ff4)
                            }
                        }
                    }
                }
            } else {
                if v < 0x30a1 {
                    if v < 0x2ceb {
                        if v < 0x2102 {
                            (0x1ff6 <= v && v <= 0x1ffc) || (0x200c <= v && v <= 0x200d) || (0x203f <= v && v <= 0x2040) || v == 0x2054 || v == 0x2071 || v == 0x207f || (0x2090 <= v && v <= 0x209c) || (0x20d0 <= v && v <= 0x20f0)
                        } else {
                            if v < 0x212a {
                                v == 0x2102 || v == 0x2107 || (0x210a <= v && v <= 0x2113) || v == 0x2115 || (0x2119 <= v && v <= 0x211d) || v == 0x2124 || v == 0x2126 || v == 0x2128
                            } else {
                                (0x212a <= v && v <= 0x212d) || (0x212f <= v && v <= 0x2139) || (0x213c <= v && v <= 0x213f) || (0x2145 <= v && v <= 0x2149) || v == 0x214e || (0x2160 <= v && v <= 0x2188) || (0x24b6 <= v && v <= 0x24e9) || (0x2c00 <= v && v <= 0x2ce4)
                            }
                        }
                    } else {
                        if v < 0x2da8 {
                            (0x2ceb <= v && v <= 0x2cf3) || (0x2d00 <= v && v <= 0x2d25) || v == 0x2d27 || v == 0x2d2d || (0x2d30 <= v && v <= 0x2d67) || v == 0x2d6f || (0x2d7f <= v && v <= 0x2d96) || (0x2da0 <= v && v <= 0x2da6)
                        } else {
                            if v < 0x2e2f {
                                (0x2da8 <= v && v <= 0x2dae) || (0x2db0 <= v && v <= 0x2db6) || (0x2db8 <= v && v <= 0x2dbe) || (0x2dc0 <= v && v <= 0x2dc6) || (0x2dc8 <= v && v <= 0x2dce) || (0x2dd0 <= v && v <= 0x2dd6) || (0x2dd8 <= v && v <= 0x2dde) || (0x2de0 <= v && v <= 0x2dff)
                            } else {
                                v == 0x2e2f || (0x3005 <= v && v <= 0x3007) || (0x3021 <= v && v <= 0x302f) || (0x3031 <= v && v <= 0x3035) || (0x3038 <= v && v <= 0x303c) || (0x3041 <= v && v <= 0x3096) || (0x3099 <= v && v <= 0x309a) || (0x309d <= v && v <= 0x309f)
                            }
                        }
                    }
                } else {
                    if v < 0xa8d0 {
                        if v < 0xa4d0 {
                            (0x30a1 <= v && v <= 0x30fa) || (0x30fc <= v && v <= 0x30ff) || (0x3105 <= v && v <= 0x312f) || (0x3131 <= v && v <= 0x318e) || (0x31a0 <= v && v <= 0x31bf) || (0x31f0 <= v && v <= 0x31ff) || (0x3400 <= v && v <= 0x4dbf) || (0x4e00 <= v && v <= 0xa48c)
                        } else {
                            if v < 0xa78b {
                                (0xa4d0 <= v && v <= 0xa4fd) || (0xa500 <= v && v <= 0xa60c) || (0xa610 <= v && v <= 0xa62b) || (0xa640 <= v && v <= 0xa672) || (0xa674 <= v && v <= 0xa67d) || (0xa67f <= v && v <= 0xa6f1) || (0xa717 <= v && v <= 0xa71f) || (0xa722 <= v && v <= 0xa788)
                            } else {
                                (0xa78b <= v && v <= 0xa7cd) || (0xa7d0 <= v && v <= 0xa7d1) || v == 0xa7d3 || (0xa7d5 <= v && v <= 0xa7dc) || (0xa7f2 <= v && v <= 0xa827) || v == 0xa82c || (0xa840 <= v && v <= 0xa873) || (0xa880 <= v && v <= 0xa8c5)
                            }
                        }
                    } else {
                        if v < 0xaaf2 {
                            if v < 0xa9e0 {
                                (0xa8d0 <= v && v <= 0xa8d9) || (0xa8e0 <= v && v <= 0xa8f7) || v == 0xa8fb || (0xa8fd <= v && v <= 0xa92d) || (0xa930 <= v && v <= 0xa953) || (0xa960 <= v && v <= 0xa97c) || (0xa980 <= v && v <= 0xa9c0) || (0xa9cf <= v && v <= 0xa9d9)
                            } else {
                                (0xa9e0 <= v && v <= 0xa9fe) || (0xaa00 <= v && v <= 0xaa36) || (0xaa40 <= v && v <= 0xaa4d) || (0xaa50 <= v && v <= 0xaa59) || (0xaa60 <= v && v <= 0xaa76) || (0xaa7a <= v && v <= 0xaac2) || (0xaadb <= v && v <= 0xaadd) || (0xaae0 <= v && v <= 0xaaef)
                            }
                        } else {
                            if v < 0xab70 {
                                (0xaaf2 <= v && v <= 0xaaf6) || (0xab01 <= v && v <= 0xab06) || (0xab09 <= v && v <= 0xab0e) || (0xab11 <= v && v <= 0xab16) || (0xab20 <= v && v <= 0xab26) || (0xab28 <= v && v <= 0xab2e) || (0xab30 <= v && v <= 0xab5a) || (0xab5c <= v && v <= 0xab69)
                            } else {
                                (0xab70 <= v && v <= 0xabea) || (0xabec <= v && v <= 0xabed) || (0xabf0 <= v && v <= 0xabf9) || (0xac00 <= v && v <= 0xd7a3) || (0xd7b0 <= v && v <= 0xd7c6) || (0xd7cb <= v && v <= 0xd7fb) || (0xf900 <= v && v <= 0xfa6d) || (0xfa70 <= v && v <= 0xfad9)
                            }
                        }
                    }
                }
            }
        }
    } else {
        if v < 0x11a50 {
            if v < 0x10b80 {
                if v < 0x104a0 {
                    if v < 0xffc2 {
                        if v < 0xfb46 {
                            (0xfb00 <= v && v <= 0xfb06) || (0xfb13 <= v && v <= 0xfb17) || (0xfb1d <= v && v <= 0xfb28) || (0xfb2a <= v && v <= 0xfb36) || (0xfb38 <= v && v <= 0xfb3c) || v == 0xfb3e || (0xfb40 <= v && v <= 0xfb41) || (0xfb43 <= v && v <= 0xfb44)
                        } else {
                            if v < 0xfe4d {
                                (0xfb46 <= v && v <= 0xfbb1) || (0xfbd3 <= v && v <= 0xfd3d) || (0xfd50 <= v && v <= 0xfd8f) || (0xfd92 <= v && v <= 0xfdc7) || (0xfdf0 <= v && v <= 0xfdfb) || (0xfe00 <= v && v <= 0xfe0f) || (0xfe20 <= v && v <= 0xfe2f) || (0xfe33 <= v && v <= 0xfe34)
                            } else {
                                (0xfe4d <= v && v <= 0xfe4f) || (0xfe70 <= v && v <= 0xfe74) || (0xfe76 <= v && v <= 0xfefc) || (0xff10 <= v && v <= 0xff19) || (0xff21 <= v && v <= 0xff3a) || v == 0xff3f || (0xff41 <= v && v <= 0xff5a) || (0xff66 <= v && v <= 0xffbe)
                            }
                        }
                    } else {
                        if v < 0x1003f {
                            (0xffc2 <= v && v <= 0xffc7) || (0xffca <= v && v <= 0xffcf) || (0xffd2 <= v && v <= 0xffd7) || (0xffda <= v && v <= 0xffdc) || (0x10000 <= v && v <= 0x1000b) || (0x1000d <= v && v <= 0x10026) || (0x10028 <= v && v <= 0x1003a) || (0x1003c <= v && v <= 0x1003d)
                        } else {
                            if v < 0x10300 {
                                (0x1003f <= v && v <= 0x1004d) || (0x10050 <= v && v <= 0x1005d) || (0x10080 <= v && v <= 0x100fa) || (0x10140 <= v && v <= 0x10174) || v == 0x101fd || (0x10280 <= v && v <= 0x1029c) || (0x102a0 <= v && v <= 0x102d0) || v == 0x102e0
                            } else {
                                (0x10300 <= v && v <= 0x1031f) || (0x1032d <= v && v <= 0x1034a) || (0x10350 <= v && v <= 0x1037a) || (0x10380 <= v && v <= 0x1039d) || (0x103a0 <= v && v <= 0x103c3) || (0x103c8 <= v && v <= 0x103cf) || (0x103d1 <= v && v <= 0x103d5) || (0x10400 <= v && v <= 0x1049d)
                            }
                        }
                    }
                } else {
                    if v < 0x1083c {
                        if v < 0x10594 {
                            (0x104a0 <= v && v <= 0x104a9) || (0x104b0 <= v && v <= 0x104d3) || (0x104d8 <= v && v <= 0x104fb) || (0x10500 <= v && v <= 0x10527) || (0x10530 <= v && v <= 0x10563) || (0x10570 <= v && v <= 0x1057a) || (0x1057c <= v && v <= 0x1058a) || (0x1058c <= v && v <= 0x10592)
                        } else {
                            if v < 0x10760 {
                                (0x10594 <= v && v <= 0x10595) || (0x10597 <= v && v <= 0x105a1) || (0x105a3 <= v && v <= 0x105b1) || (0x105b3 <= v && v <= 0x105b9) || (0x105bb <= v && v <= 0x105bc) || (0x105c0 <= v && v <= 0x105f3) || (0x10600 <= v && v <= 0x10736) || (0x10740 <= v && v <= 0x10755)
                            } else {
                                (0x10760 <= v && v <= 0x10767) || (0x10780 <= v && v <= 0x10785) || (0x10787 <= v && v <= 0x107b0) || (0x107b2 <= v && v <= 0x107ba) || (0x10800 <= v && v <= 0x10805) || v == 0x10808 || (0x1080a <= v && v <= 0x10835) || (0x10837 <= v && v <= 0x10838)
                            }
                        }
                    } else {
                        if v < 0x10980 {
                            v == 0x1083c || (0x1083f <= v && v <= 0x10855) || (0x10860 <= v && v <= 0x10876) || (0x10880 <= v && v <= 0x1089e) || (0x108e0 <= v && v <= 0x108f2) || (0x108f4 <= v && v <= 0x108f5) || (0x10900 <= v && v <= 0x10915) || (0x10920 <= v && v <= 0x10939)
                        } else {
                            if v < 0x10a3f {
                                (0x10980 <= v && v <= 0x109b7) || (0x109be <= v && v <= 0x109bf) || (0x10a00 <= v && v <= 0x10a03) || (0x10a05 <= v && v <= 0x10a06) || (0x10a0c <= v && v <= 0x10a13) || (0x10a15 <= v && v <= 0x10a17) || (0x10a19 <= v && v <= 0x10a35) || (0x10a38 <= v && v <= 0x10a3a)
                            } else {
                                v == 0x10a3f || (0x10a60 <= v && v <= 0x10a7c) || (0x10a80 <= v && v <= 0x10a9c) || (0x10ac0 <= v && v <= 0x10ac7) || (0x10ac9 <= v && v <= 0x10ae6) || (0x10b00 <= v && v <= 0x10b35) || (0x10b40 <= v && v <= 0x10b55) || (0x10b60 <= v && v <= 0x10b72)
                            }
                        }
                    }
                }
            } else {
                if v < 0x1132a {
                    if v < 0x110f0 {
                        if v < 0x10d6f {
                            (0x10b80 <= v && v <= 0x10b91) || (0x10c00 <= v && v <= 0x10c48) || (0x10c80 <= v && v <= 0x10cb2) || (0x10cc0 <= v && v <= 0x10cf2) || (0x10d00 <= v && v <= 0x10d27) || (0x10d30 <= v && v <= 0x10d39) || (0x10d40 <= v && v <= 0x10d65) || (0x10d69 <= v && v <= 0x10d6d)
                        } else {
                            if v < 0x10f70 {
                                (0x10d6f <= v && v <= 0x10d85) || (0x10e80 <= v && v <= 0x10ea9) || (0x10eab <= v && v <= 0x10eac) || (0x10eb0 <= v && v <= 0x10eb1) || (0x10ec2 <= v && v <= 0x10ec4) || (0x10efc <= v && v <= 0x10f1c) || v == 0x10f27 || (0x10f30 <= v && v <= 0x10f50)
                            } else {
                                (0x10f70 <= v && v <= 0x10f85) || (0x10fb0 <= v && v <= 0x10fc4) || (0x10fe0 <= v && v <= 0x10ff6) || (0x11000 <= v && v <= 0x11046) || (0x11066 <= v && v <= 0x11075) || (0x1107f <= v && v <= 0x110ba) || v == 0x110c2 || (0x110d0 <= v && v <= 0x110e8)
                            }
                        }
                    } else {
                        if v < 0x111ce {
                            (0x110f0 <= v && v <= 0x110f9) || (0x11100 <= v && v <= 0x11134) || (0x11136 <= v && v <= 0x1113f) || (0x11144 <= v && v <= 0x11147) || (0x11150 <= v && v <= 0x11173) || v == 0x11176 || (0x11180 <= v && v <= 0x111c4) || (0x111c9 <= v && v <= 0x111cc)
                        } else {
                            if v < 0x1128f {
                                (0x111ce <= v && v <= 0x111da) || v == 0x111dc || (0x11200 <= v && v <= 0x11211) || (0x11213 <= v && v <= 0x11237) || (0x1123e <= v && v <= 0x11241) || (0x11280 <= v && v <= 0x11286) || v == 0x11288 || (0x1128a <= v && v <= 0x1128d)
                            } else {
                                (0x1128f <= v && v <= 0x1129d) || (0x1129f <= v && v <= 0x112a8) || (0x112b0 <= v && v <= 0x112ea) || (0x112f0 <= v && v <= 0x112f9) || (0x11300 <= v && v <= 0x11303) || (0x11305 <= v && v <= 0x1130c) || (0x1130f <= v && v <= 0x11310) || (0x11313 <= v && v <= 0x11328)
                            }
                        }
                    }
                } else {
                    if v < 0x11480 {
                        if v < 0x1135d {
                            (0x1132a <= v && v <= 0x11330) || (0x11332 <= v && v <= 0x11333) || (0x11335 <= v && v <= 0x11339) || (0x1133b <= v && v <= 0x11344) || (0x11347 <= v && v <= 0x11348) || (0x1134b <= v && v <= 0x1134d) || v == 0x11350 || v == 0x11357
                        } else {
                            if v < 0x113c2 {
                                (0x1135d <= v && v <= 0x11363) || (0x11366 <= v && v <= 0x1136c) || (0x11370 <= v && v <= 0x11374) || (0x11380 <= v && v <= 0x11389) || v == 0x1138b || v == 0x1138e || (0x11390 <= v && v <= 0x113b5) || (0x113b7 <= v && v <= 0x113c0)
                            } else {
                                v == 0x113c2 || v == 0x113c5 || (0x113c7 <= v && v <= 0x113ca) || (0x113cc <= v && v <= 0x113d3) || (0x113e1 <= v && v <= 0x113e2) || (0x11400 <= v && v <= 0x1144a) || (0x11450 <= v && v <= 0x11459) || (0x1145e <= v && v <= 0x11461)
                            }
                        }
                    } else {
                        if v < 0x11800 {
                            if v < 0x11650 {
                                (0x11480 <= v && v <= 0x114c5) || v == 0x114c7 || (0x114d0 <= v && v <= 0x114d9) || (0x11580 <= v && v <= 0x115b5) || (0x115b8 <= v && v <= 0x115c0) || (0x115d8 <= v && v <= 0x115dd) || (0x11600 <= v && v <= 0x11640) || v == 0x11644
                            } else {
                                (0x11650 <= v && v <= 0x11659) || (0x11680 <= v && v <= 0x116b8) || (0x116c0 <= v && v <= 0x116c9) || (0x116d0 <= v && v <= 0x116e3) || (0x11700 <= v && v <= 0x1171a) || (0x1171d <= v && v <= 0x1172b) || (0x11730 <= v && v <= 0x11739) || (0x11740 <= v && v <= 0x11746)
                            }
                        } else {
                            if v < 0x1193b {
                                (0x11800 <= v && v <= 0x1183a) || (0x118a0 <= v && v <= 0x118e9) || (0x118ff <= v && v <= 0x11906) || v == 0x11909 || (0x1190c <= v && v <= 0x11913) || (0x11915 <= v && v <= 0x11916) || (0x11918 <= v && v <= 0x11935) || (0x11937 <= v && v <= 0x11938)
                            } else {
                                (0x1193b <= v && v <= 0x11943) || (0x11950 <= v && v <= 0x11959) || (0x119a0 <= v && v <= 0x119a7) || (0x119aa <= v && v <= 0x119d7) || (0x119da <= v && v <= 0x119e1) || (0x119e3 <= v && v <= 0x119e4) || (0x11a00 <= v && v <= 0x11a3e) || v == 0x11a47
                            }
                        }
                    }
                }
            }
        } else {
            if v < 0x1d4c5 {
                if v < 0x16b40 {
                    if v < 0x11da0 {
                        if v < 0x11c50 {
                            (0x11a50 <= v && v <= 0x11a99) || v == 0x11a9d || (0x11ab0 <= v && v <= 0x11af8) || (0x11bc0 <= v && v <= 0x11be0) || (0x11bf0 <= v && v <= 0x11bf9) || (0x11c00 <= v && v <= 0x11c08) || (0x11c0a <= v && v <= 0x11c36) || (0x11c38 <= v && v <= 0x11c40)
                        } else {
                            if v < 0x11d3c {
                                (0x11c50 <= v && v <= 0x11c59) || (0x11c72 <= v && v <= 0x11c8f) || (0x11c92 <= v && v <= 0x11ca7) || (0x11ca9 <= v && v <= 0x11cb6) || (0x11d00 <= v && v <= 0x11d06) || (0x11d08 <= v && v <= 0x11d09) || (0x11d0b <= v && v <= 0x11d36) || v == 0x11d3a
                            } else {
                                (0x11d3c <= v && v <= 0x11d3d) || (0x11d3f <= v && v <= 0x11d47) || (0x11d50 <= v && v <= 0x11d59) || (0x11d60 <= v && v <= 0x11d65) || (0x11d67 <= v && v <= 0x11d68) || (0x11d6a <= v && v <= 0x11d8e) || (0x11d90 <= v && v <= 0x11d91) || (0x11d93 <= v && v <= 0x11d98)
                            }
                        }
                    } else {
                        if v < 0x12400 {
                            (0x11da0 <= v && v <= 0x11da9) || (0x11ee0 <= v && v <= 0x11ef6) || (0x11f00 <= v && v <= 0x11f10) || (0x11f12 <= v && v <= 0x11f3a) || (0x11f3e <= v && v <= 0x11f42) || (0x11f50 <= v && v <= 0x11f5a) || v == 0x11fb0 || (0x12000 <= v && v <= 0x12399)
                        } else {
                            if v < 0x16800 {
                                (0x12400 <= v && v <= 0x1246e) || (0x12480 <= v && v <= 0x12543) || (0x12f90 <= v && v <= 0x12ff0) || (0x13000 <= v && v <= 0x1342f) || (0x13440 <= v && v <= 0x13455) || (0x13460 <= v && v <= 0x143fa) || (0x14400 <= v && v <= 0x14646) || (0x16100 <= v && v <= 0x16139)
                            } else {
                                (0x16800 <= v && v <= 0x16a38) || (0x16a40 <= v && v <= 0x16a5e) || (0x16a60 <= v && v <= 0x16a69) || (0x16a70 <= v && v <= 0x16abe) || (0x16ac0 <= v && v <= 0x16ac9) || (0x16ad0 <= v && v <= 0x16aed) || (0x16af0 <= v && v <= 0x16af4) || (0x16b00 <= v && v <= 0x16b36)
                            }
                        }
                    }
                } else {
                    if v < 0x1b170 {
                        if v < 0x16f4f {
                            (0x16b40 <= v && v <= 0x16b43) || (0x16b50 <= v && v <= 0x16b59) || (0x16b63 <= v && v <= 0x16b77) || (0x16b7d <= v && v <= 0x16b8f) || (0x16d40 <= v && v <= 0x16d6c) || (0x16d70 <= v && v <= 0x16d79) || (0x16e40 <= v && v <= 0x16e7f) || (0x16f00 <= v && v <= 0x16f4a)
                        } else {
                            if v < 0x1aff0 {
                                (0x16f4f <= v && v <= 0x16f87) || (0x16f8f <= v && v <= 0x16f9f) || (0x16fe0 <= v && v <= 0x16fe1) || (0x16fe3 <= v && v <= 0x16fe4) || (0x16ff0 <= v && v <= 0x16ff1) || (0x17000 <= v && v <= 0x187f7) || (0x18800 <= v && v <= 0x18cd5) || (0x18cff <= v && v <= 0x18d08)
                            } else {
                                (0x1aff0 <= v && v <= 0x1aff3) || (0x1aff5 <= v && v <= 0x1affb) || (0x1affd <= v && v <= 0x1affe) || (0x1b000 <= v && v <= 0x1b122) || v == 0x1b132 || (0x1b150 <= v && v <= 0x1b152) || v == 0x1b155 || (0x1b164 <= v && v <= 0x1b167)
                            }
                        }
                    } else {
                        if v < 0x1cf30 {
                            (0x1b170 <= v && v <= 0x1b2fb) || (0x1bc00 <= v && v <= 0x1bc6a) || (0x1bc70 <= v && v <= 0x1bc7c) || (0x1bc80 <= v && v <= 0x1bc88) || (0x1bc90 <= v && v <= 0x1bc99) || (0x1bc9d <= v && v <= 0x1bc9e) || (0x1ccf0 <= v && v <= 0x1ccf9) || (0x1cf00 <= v && v <= 0x1cf2d)
                        } else {
                            if v < 0x1d456 {
                                (0x1cf30 <= v && v <= 0x1cf46) || (0x1d165 <= v && v <= 0x1d169) || (0x1d16d <= v && v <= 0x1d172) || (0x1d17b <= v && v <= 0x1d182) || (0x1d185 <= v && v <= 0x1d18b) || (0x1d1aa <= v && v <= 0x1d1ad) || (0x1d242 <= v && v <= 0x1d244) || (0x1d400 <= v && v <= 0x1d454)
                            } else {
                                (0x1d456 <= v && v <= 0x1d49c) || (0x1d49e <= v && v <= 0x1d49f) || v == 0x1d4a2 || (0x1d4a5 <= v && v <= 0x1d4a6) || (0x1d4a9 <= v && v <= 0x1d4ac) || (0x1d4ae <= v && v <= 0x1d4b9) || v == 0x1d4bb || (0x1d4bd <= v && v <= 0x1d4c3)
                            }
                        }
                    }
                }
            } else {
                if v < 0x1e7f0 {
                    if v < 0x1da75 {
                        if v < 0x1d54a {
                            (0x1d4c5 <= v && v <= 0x1d505) || (0x1d507 <= v && v <= 0x1d50a) || (0x1d50d <= v && v <= 0x1d514) || (0x1d516 <= v && v <= 0x1d51c) || (0x1d51e <= v && v <= 0x1d539) || (0x1d53b <= v && v <= 0x1d53e) || (0x1d540 <= v && v <= 0x1d544) || v == 0x1d546
                        } else {
                            if v < 0x1d750 {
                                (0x1d54a <= v && v <= 0x1d550) || (0x1d552 <= v && v <= 0x1d6a5) || (0x1d6a8 <= v && v <= 0x1d6c0) || (0x1d6c2 <= v && v <= 0x1d6da) || (0x1d6dc <= v && v <= 0x1d6fa) || (0x1d6fc <= v && v <= 0x1d714) || (0x1d716 <= v && v <= 0x1d734) || (0x1d736 <= v && v <= 0x1d74e)
                            } else {
                                (0x1d750 <= v && v <= 0x1d76e) || (0x1d770 <= v && v <= 0x1d788) || (0x1d78a <= v && v <= 0x1d7a8) || (0x1d7aa <= v && v <= 0x1d7c2) || (0x1d7c4 <= v && v <= 0x1d7cb) || (0x1d7ce <= v && v <= 0x1d7ff) || (0x1da00 <= v && v <= 0x1da36) || (0x1da3b <= v && v <= 0x1da6c)
                            }
                        }
                    } else {
                        if v < 0x1e01b {
                            v == 0x1da75 || v == 0x1da84 || (0x1da9b <= v && v <= 0x1da9f) || (0x1daa1 <= v && v <= 0x1daaf) || (0x1df00 <= v && v <= 0x1df1e) || (0x1df25 <= v && v <= 0x1df2a) || (0x1e000 <= v && v <= 0x1e006) || (0x1e008 <= v && v <= 0x1e018)
                        } else {
                            if v < 0x1e14e {
                                (0x1e01b <= v && v <= 0x1e021) || (0x1e023 <= v && v <= 0x1e024) || (0x1e026 <= v && v <= 0x1e02a) || (0x1e030 <= v && v <= 0x1e06d) || v == 0x1e08f || (0x1e100 <= v && v <= 0x1e12c) || (0x1e130 <= v && v <= 0x1e13d) || (0x1e140 <= v && v <= 0x1e149)
                            } else {
                                v == 0x1e14e || (0x1e290 <= v && v <= 0x1e2ae) || (0x1e2c0 <= v && v <= 0x1e2f9) || (0x1e4d0 <= v && v <= 0x1e4f9) || (0x1e5d0 <= v && v <= 0x1e5fa) || (0x1e7e0 <= v && v <= 0x1e7e6) || (0x1e7e8 <= v && v <= 0x1e7eb) || (0x1e7ed <= v && v <= 0x1e7ee)
                            }
                        }
                    }
                } else {
                    if v < 0x1ee5d {
                        if v < 0x1ee24 {
                            (0x1e7f0 <= v && v <= 0x1e7fe) || (0x1e800 <= v && v <= 0x1e8c4) || (0x1e8d0 <= v && v <= 0x1e8d6) || (0x1e900 <= v && v <= 0x1e94b) || (0x1e950 <= v && v <= 0x1e959) || (0x1ee00 <= v && v <= 0x1ee03) || (0x1ee05 <= v && v <= 0x1ee1f) || (0x1ee21 <= v && v <= 0x1ee22)
                        } else {
                            if v < 0x1ee49 {
                                v == 0x1ee24 || v == 0x1ee27 || (0x1ee29 <= v && v <= 0x1ee32) || (0x1ee34 <= v && v <= 0x1ee37) || v == 0x1ee39 || v == 0x1ee3b || v == 0x1ee42 || v == 0x1ee47
                            } else {
                                v == 0x1ee49 || v == 0x1ee4b || (0x1ee4d <= v && v <= 0x1ee4f) || (0x1ee51 <= v && v <= 0x1ee52) || v == 0x1ee54 || v == 0x1ee57 || v == 0x1ee59 || v == 0x1ee5b
                            }
                        }
                    } else {
                        if v < 0x1f170 {
                            if v < 0x1ee7e {
                                v == 0x1ee5d || v == 0x1ee5f || (0x1ee61 <= v && v <= 0x1ee62) || v == 0x1ee64 || (0x1ee67 <= v && v <= 0x1ee6a) || (0x1ee6c <= v && v <= 0x1ee72) || (0x1ee74 <= v && v <= 0x1ee77) || (0x1ee79 <= v && v <= 0x1ee7c)
                            } else {
                                v == 0x1ee7e || (0x1ee80 <= v && v <= 0x1ee89) || (0x1ee8b <= v && v <= 0x1ee9b) || (0x1eea1 <= v && v <= 0x1eea3) || (0x1eea5 <= v && v <= 0x1eea9) || (0x1eeab <= v && v <= 0x1eebb) || (0x1f130 <= v && v <= 0x1f149) || (0x1f150 <= v && v <= 0x1f169)
                            }
                        } else {
                            if v < 0x2f800 {
                                (0x1f170 <= v && v <= 0x1f189) || (0x1fbf0 <= v && v <= 0x1fbf9) || (0x20000 <= v && v <= 0x2a6df) || (0x2a700 <= v && v <= 0x2b739) || (0x2b740 <= v && v <= 0x2b81d) || (0x2b820 <= v && v <= 0x2cea1) || (0x2ceb0 <= v && v <= 0x2ebe0) || (0x2ebf0 <= v && v <= 0x2ee5d)
                            } else {
                                (0x2f800 <= v && v <= 0x2fa1d) || (0x30000 <= v && v <= 0x3134a) || (0x31350 <= v && v <= 0x323af) || (0xe0100 <= v && v <= 0xe01ef)
                            }
                        }
                    }
                }
            }
        }
    }
}

/// Decides `is_word_char`.
pub fn word_char(c: char) -> (b: bool)
    ensures
        b == is_word_char(c),
{
    reveal(is_word_char);
    reveal(word_table);
    let v = c as u32;
    if v < 0xfb00 {
        if v < 0xf49 {
            if v < 0xacb {
                if v < 0x840 {
                    if v < 0x483 {
                        if v < 0xd8 {
                            (0x30 <= v && v <= 0x39) || (0x41 <= v && v <= 0x5a) || v == 0x5f || (0x61 <= v && v <= 0x7a) || v == 0xaa || v == 0xb5 || v == 0xba || (0xc0 <= v && v <= 0xd6)
                        } else {
                            if v < 0x37a {
                                (0xd8 <= v && v <= 0xf6) || (0xf8 <= v && v <= 0x2c1) || (0x2c6 <= v && v <= 0x2d1) || (0x2e0 <= v && v <= 0x2e4) || v == 0x2ec || v == 0x2ee || (0x300 <= v && v <= 0x374) || (0x376 <= v && v <= 0x377)
                            } else {
                                (0x37a <= v && v <= 0x37d) || v == 0x37f || v == 0x386 || (0x388 <= v && v <= 0x38a) || v == 0x38c || (0x38e <= v && v <= 0x3a1) || (0x3a3 <= v && v <= 0x3f5) || (0x3f7 <= v && v <= 0x481)
                            }
                        }
                    } else {
                        if v < 0x5c7 {
                            (0x483 <= v && v <= 0x52f) || (0x531 <= v && v <= 0x556) || v == 0x559 || (0x560 <= v && v <= 0x588) || (0x591 <= v && v <= 0x5bd) || v == 0x5bf || (0x5c1 <= v && v <= 0x5c2) || (0x5c4 <= v && v <= 0x5c5)
                        } else {
                            if v < 0x6ea {
                                v == 0x5c7 || (0x5d0 <= v && v <= 0x5ea) || (0x5ef <= v && v <= 0x5f2) || (0x610 <= v && v <= 0x61a) || (0x620 <= v && v <= 0x669) || (0x66e <= v && v <= 0x6d3) || (0x6d5 <= v && v <= 0x6dc) || (0x6df <= v && v <= 0x6e8)
                            } else {
                                (0x6ea <= v && v <= 0x6fc) || v == 0x6ff || (0x710 <= v && v <= 0x74a) || (0x74d <= v && v <= 0x7b1) || (0x7c0 <= v && v <= 0x7f5) || v == 0x7fa || v == 0x7fd || (0x800 <= v && v <= 0x82d)
                            }
                        }
                    }
                } else {
                    if v < 0xa05 {
                        if v < 0x985 {
                            (0x840 <= v && v <= 0x85b) || (0x860 <= v && v <= 0x86a) || (0x870 <= v && v <= 0x887) || (0x889 <= v && v <= 0x88e) || (0x897 <= v && v <= 0x8e1) || (0x8e3 <= v && v <= 0x963) || (0x966 <= v && v <= 0x96f) || (0x971 <= v && v <= 0x983)
                        } else {
                            if v < 0x9cb {
                                (0x985 <= v && v <= 0x98c) || (0x98f <= v && v <= 0x990) || (0x993 <= v && v <= 0x9a8) || (0x9aa <= v && v <= 0x9b0) || v == 0x9b2 || (0x9b6 <= v && v <= 0x9b9) || (0x9bc <= v && v <= 0x9c4) || (0x9c7 <= v && v <= 0x9c8)
                            } else {
                                (0x9cb <= v && v <= 0x9ce) || v == 0x9d7 || (0x9dc <= v && v <= 0x9dd) || (0x9df <= v && v <= 0x9e3) || (0x9e6 <= v && v <= 0x9f1) || v == 0x9fc || v == 0x9fe || (0xa01 <= v && v <= 0xa03)
                            }
                        }
                    } else {
                        if v < 0xa3e {
                            (0xa05 <= v && v <= 0xa0a) || (0xa0f <= v && v <= 0xa10) || (0xa13 <= v && v <= 0xa28) || (0xa2a <= v && v <= 0xa30) || (0xa32 <= v && v <= 0xa33) || (0xa35 <= v && v <= 0xa36) || (0xa38 <= v && v <= 0xa39) || v == 0xa3c
                        } else {
                            if v < 0xa85 {
                                (0xa3e <= v && v <= 0xa42) || (0xa47 <= v && v <= 0xa48) || (0xa4b <= v && v <= 0xa4d) || v == 0xa51 || (0xa59 <= v && v <= 0xa5c) || v == 0xa5e || (0xa66 <= v && v <= 0xa75) || (0xa81 <= v && v <= 0xa83)
                            } else {
                                (0xa85 <= v && v <= 0xa8d) || (0xa8f <= v && v <= 0xa91) || (0xa93 <= v && v <= 0xaa8) || (0xaaa <= v && v <= 0xab0) || (0xab2 <= v && v <= 0xab3) || (0xab5 <= v && v <= 0xab9) || (0xabc <= v && v <= 0xac5) || (0xac7 <= v && v <= 0xac9)
                            }
                        }
                    }
                }
            } else {
                if v < 0xc80 {
                    if v < 0xb99 {
                        if v < 0xb13 {
                            (0xacb <= v && v <= 0xacd) || v == 0xad0 || (0xae0 <= v && v <= 0xae3) || (0xae6 <= v && v <= 0xaef) || (0xaf9 <= v && v <= 0xaff) || (0xb01 <= v && v <= 0xb03) || (0xb05 <= v && v <= 0xb0c) || (0xb0f <= v && v <= 0xb10)
                        } else {
                            if v < 0xb5c {
                                (0xb13 <= v && v <= 0xb28) || (0xb2a <= v && v <= 0xb30) || (0xb32 <= v && v <= 0xb33) || (0xb35 <= v && v <= 0xb39) || (0xb3c <= v && v <= 0xb44) || (0xb47 <= v && v <= 0xb48) || (0xb4b <= v && v <= 0xb4d) || (0xb55 <= v && v <= 0xb57)
                            } else {
                                (0xb5c <= v && v <= 0xb5d) || (0xb5f <= v && v <= 0xb63) || (0xb66 <= v && v <= 0xb6f) || v == 0xb71 || (0xb82 <= v && v <= 0xb83) || (0xb85 <= v && v <= 0xb8a) || (0xb8e <= v && v <= 0xb90) || (0xb92 <= v && v <= 0xb95)
                            }
                        }
                    } else {
                        if v < 0xbca {
                            (0xb99 <= v && v <= 0xb9a) || v == 0xb9c || (0xb9e <= v && v <= 0xb9f) || (0xba3 <= v && v <= 0xba4) || (0xba8 <= v && v <= 0xbaa) || (0xbae <= v && v <= 0xbb9) || (0xbbe <= v && v <= 0xbc2) || (0xbc6 <= v && v <= 0xbc8)
                        } else {
                            if v < 0xc3c {
                                (0xbca <= v && v <= 0xbcd) || v == 0xbd0 || v == 0xbd7 || (0xbe6 <= v && v <= 0xbef) || (0xc00 <= v && v <= 0xc0c) || (0xc0e <= v && v <= 0xc10) || (0xc12 <= v && v <= 0xc28) || (0xc2a <= v && v <= 0xc39)
                            } else {
                                (0xc3c <= v && v <= 0xc44) || (0xc46 <= v && v <= 0xc48) || (0xc4a <= v && v <= 0xc4d) || (0xc55 <= v && v <= 0xc56) || (0xc58 <= v && v <= 0xc5a) || v == 0xc5d || (0xc60 <= v && v <= 0xc63) || (0xc66 <= v && v <= 0xc6f)
                            }
                        }
                    }
                } else {
                    if v < 0xd85 {
                        if v < 0xcca {
                            (0xc80 <= v && v <= 0xc83) || (0xc85 <= v && v <= 0xc8c) || (0xc8e <= v && v <= 0xc90) || (0xc92 <= v && v <= 0xca8) || (0xcaa <= v && v <= 0xcb3) || (0xcb5 <= v && v <= 0xcb9) || (0xcbc <= v && v <= 0xcc4) || (0xcc6 <= v && v <= 0xcc8)
                        } else {
                            if v < 0xd12 {
                                (0xcca <= v && v <= 0xccd) || (0xcd5 <= v && v <= 0xcd6) || (0xcdd <= v && v <= 0xcde) || (0xce0 <= v && v <= 0xce3) || (0xce6 <= v && v <= 0xcef) || (0xcf1 <= v && v <= 0xcf3) || (0xd00 <= v && v <= 0xd0c) || (0xd0e <= v && v <= 0xd10)
                            } else {
                                (0xd12 <= v && v <= 0xd44) || (0xd46 <= v && v <= 0xd48) || (0xd4a <= v && v <= 0xd4e) || (0xd54 <= v && v <= 0xd57) || (0xd5f <= v && v <= 0xd63) || (0xd66 <= v && v <= 0xd6f) || (0xd7a <= v && v <= 0xd7f) || (0xd81 <= v && v <= 0xd83)
                            }
                        }
                    } else {
                        if v < 0xe86 {
                            if v < 0xdd8 {
                                (0xd85 <= v && v <= 0xd96) || (0xd9a <= v && v <= 0xdb1) || (0xdb3 <= v && v <= 0xdbb) || v == 0xdbd || (0xdc0 <= v && v <= 0xdc6) || v == 0xdca || (0xdcf <= v && v <= 0xdd4) || v == 0xdd6
                            } else {
                                (0xdd8 <= v && v <= 0xddf) || (0xde6 <= v && v <= 0xdef) || (0xdf2 <= v && v <= 0xdf3) || (0xe01 <= v && v <= 0xe3a) || (0xe40 <= v && v <= 0xe4e) || (0xe50 <= v && v <= 0xe59) || (0xe81 <= v && v <= 0xe82) || v == 0xe84
                            }
                        } else {
                            if v < 0xedc {
                                (0xe86 <= v && v <= 0xe8a) || (0xe8c <= v && v <= 0xea3) || v == 0xea5 || (0xea7 <= v && v <= 0xebd) || (0xec0 <= v && v <= 0xec4) || v == 0xec6 || (0xec8 <= v && v <= 0xece) || (0xed0 <= v && v <= 0xed9)
                            } else {
                                (0xedc <= v && v <= 0xedf) || v == 0xf00 || (0xf18 <= v && v <= 0xf19) || (0xf20 <= v && v <= 0xf29) || v == 0xf35 || v == 0xf37 || v == 0xf39 || (0xf3e <= v && v <= 0xf47)
                            }
                        }
                    }
                }
            }
        } else {
            if v < 0x1ff6 {
                if v < 0x1820 {
                    if v < 0x12d8 {
                        if v < 0x10c7 {
                            (0xf49 <= v && v <= 0xf6c) || (0xf71 <= v && v <= 0xf84) || (0xf86 <= v && v <= 0xf97) || (0xf99 <= v && v <= 0xfbc) || v == 0xfc6 || (0x1000 <= v && v <= 0x1049) || (0x1050 <= v && v <= 0x109d) || (0x10a0 <= v && v <= 0x10c5)
                        } else {
                            if v < 0x1260 {
                                v == 0x10c7 || v == 0x10cd || (0x10d0 <= v && v <= 0x10fa) || (0x10fc <= v && v <= 0x1248) || (0x124a <= v && v <= 0x124d) || (0x1250 <= v && v <= 0x1256) || v == 0x1258 || (0x125a <= v && v <= 0x125d)
                            } else {
                                (0x1260 <= v && v <= 0x1288) || (0x128a <= v && v <= 0x128d) || (0x1290 <= v && v <= 0x12b0) || (0x12b2 <= v && v <= 0x12b5) || (0x12b8 <= v && v <= 0x12be) || v == 0x12c0 || (0x12c2 <= v && v <= 0x12c5) || (0x12c8 <= v && v <= 0x12d6)
                            }
                        }
                    } else {
                        if v < 0x166f {
                            (0x12d8 <= v && v <= 0x1310) || (0x1312 <= v && v <= 0x1315) || (0x1318 <= v && v <= 0x135a) || (0x135d <= v && v <= 0x135f) || (0x1380 <= v && v <= 0x138f) || (0x13a0 <= v && v <= 0x13f5) || (0x13f8 <= v && v <= 0x13fd) || (0x1401 <= v && v <= 0x166c)
                        } else {
                            if v < 0x176e {
                                (0x166f <= v && v <= 0x167f) || (0x1681 <= v && v <= 0x169a) || (0x16a0 <= v && v <= 0x16ea) || (0x16ee <= v && v <= 0x16f8) || (0x1700 <= v && v <= 0x1715) || (0x171f <= v && v <= 0x1734) || (0x1740 <= v && v <= 0x1753) || (0x1760 <= v && v <= 0x176c)
                            } else {
                                (0x176e <= v && v <= 0x1770) || (0x1772 <= v && v <= 0x1773) || (0x1780 <= v && v <= 0x17d3) || v == 0x17d7 || (0x17dc <= v && v <= 0x17dd) || (0x17e0 <= v && v <= 0x17e9) || (0x180b <= v && v <= 0x180d) || (0x180f <= v && v <= 0x1819)
                            }
                        }
                    }
                } else {
                    if v < 0x1c4d {
                        if v < 0x1980 {
                            (0x1820 <= v && v <= 0x1878) || (0x1880 <= v && v <= 0x18aa) || (0x18b0 <= v && v <= 0x18f5) || (0x1900 <= v && v <= 0x191e) || (0x1920 <= v && v <= 0x192b) || (0x1930 <= v && v <= 0x193b) || (0x1946 <= v && v <= 0x196d) || (0x1970 <= v && v <= 0x1974)
                        } else {
                            if v < 0x1aa7 {
                                (0x1980 <= v && v <= 0x19ab) || (0x19b0 <= v && v <= 0x19c9) || (0x19d0 <= v && v <= 0x19d9) || (0x1a00 <= v && v <= 0x1a1b) || (0x1a20 <= v && v <= 0x1a5e) || (0x1a60 <= v && v <= 0x1a7c) || (0x1a7f <= v && v <= 0x1a89) || (0x1a90 <= v && v <= 0x1a99)
                            } else {
                                v == 0x1aa7 || (0x1ab0 <= v && v <= 0x1ace) || (0x1b00 <= v && v <= 0x1b4c) || (0x1b50 <= v && v <= 0x1b59) || (0x1b6b <= v && v <= 0x1b73) || (0x1b80 <= v && v <= 0x1bf3) || (0x1c00 <= v && v <= 0x1c37) || (0x1c40 <= v && v <= 0x1c49)
                            }
                        }
                    } else {
                        if v < 0x1f20 {
                            (0x1c4d <= v && v <= 0x1c7d) || (0x1c80 <= v && v <= 0x1c8a) || (0x1c90 <= v && v <= 0x1cba) || (0x1cbd <= v && v <= 0x1cbf) || (0x1cd0 <= v && v <= 0x1cd2) || (0x1cd4 <= v && v <= 0x1cfa) || (0x1d00 <= v && v <= 0x1f15) || (0x1f18 <= v && v <= 0x1f1d)
                        } else {
                            if v < 0x1fb6 {
                                (0x1f20 <= v && v <= 0x1f45) || (0x1f48 <= v && v <= 0x1f4d) || (0x1f50 <= v && v <= 0x1f57) || v == 0x1f59 || v == 0x1f5b || v == 0x1f5d || (0x1f5f <= v && v <= 0x1f7d) || (0x1f80 <= v && v <= 0x1fb4)
                            } else {
                                (0x1fb6 <= v && v <= 0x1fbc) || v == 0x1fbe || (0x1fc2 <= v && v <= 0x1fc4) || (0x1fc6 <= v && v <= 0x1fcc) || (0x1fd0 <= v && v <= 0x1fd3) || (0x1fd6 <= v && v <= 0x1fdb) || (0x1fe0 <= v && v <= 0x1fec) || (0x1ff2 <= v && v <= 0x1ff4)
                            }
                        }
                    }
                }
            } else {
                if v < 0x30a1 {
                    if v < 0x2ceb {
                        if v < 0x2102 {
                            (0x1ff6 <= v && v <= 0x1ffc) || (0x200c <= v && v <= 0x200d) || (0x203f <= v && v <= 0x2040) || v == 0x2054 || v == 0x2071 || v == 0x207f || (0x2090 <= v && v <= 0x209c) || (0x20d0 <= v && v <= 0x20f0)
                        } else {
                            if v < 0x212a {
                                v == 0x2102 || v == 0x2107 || (0x210a <= v && v <= 0x2113) || v == 0x2115 || (0x2119 <= v && v <= 0x211d) || v == 0x2124 || v == 0x2126 || v == 0x2128
                            } else {
                                (0x212a <= v && v <= 0x212d) || (0x212f <= v && v <= 0x2139) || (0x213c <= v && v <= 0x213f) || (0x2145 <= v && v <= 0x2149) || v == 0x214e || (0x2160 <= v && v <= 0x2188) || (0x24b6 <= v && v <= 0x24e9) || (0x2c00 <= v && v <= 0x2ce4)
                            }
                        }
                    } else {
                        if v < 0x2da8 {
                            (0x2ceb <= v && v <= 0x2cf3) || (0x2d00 <= v && v <= 0x2d25) || v == 0x2d27 || v == 0x2d2d || (0x2d30 <= v && v <= 0x2d67) || v == 0x2d6f || (0x2d7f <= v && v <= 0x2d96) || (0x2da0 <= v && v <= 0x2da6)
                        } else {
                            if v < 0x2e2f {
                                (0x2da8 <= v && v <= 0x2dae) || (0x2db0 <= v && v <= 0x2db6) || (0x2db8 <= v && v <= 0x2dbe) || (0x2dc0 <= v && v <= 0x2dc6) || (0x2dc8 <= v && v <= 0x2dce) || (0x2dd0 <= v && v <= 0x2dd6) || (0x2dd8 <= v && v <= 0x2dde) || (0x2de0 <= v && v <= 0x2dff)
                            } else {
                                v == 0x2e2f || (0x3005 <= v && v <= 0x3007) || (0x3021 <= v && v <= 0x302f) || (0x3031 <= v && v <= 0x3035) || (0x3038 <= v && v <= 0x303c) || (0x3041 <= v && v <= 0x3096) || (0x3099 <= v && v <= 0x309a) || (0x309d <= v && v <= 0x309f)
                            }
                        }
                    }
                } else {
                    if v < 0xa8d0 {
                        if v < 0xa4d0 {
                            (0x30a1 <= v && v <= 0x30fa) || (0x30fc <= v && v <= 0x30ff) || (0x3105 <= v && v <= 0x312f) || (0x3131 <= v && v <= 0x318e) || (0x31a0 <= v && v <= 0x31bf) || (0x31f0 <= v && v <= 0x31ff) || (0x3400 <= v && v <= 0x4dbf) || (0x4e00 <= v && v <= 0xa48c)
                        } else {
                            if v < 0xa78b {
                                (0xa4d0 <= v && v <= 0xa4fd) || (0xa500 <= v && v <= 0xa60c) || (0xa610 <= v && v <= 0xa62b) || (0xa640 <= v && v <= 0xa672) || (0xa674 <= v && v <= 0xa67d) || (0xa67f <= v && v <= 0xa6f1) || (0xa717 <= v && v <= 0xa71f) || (0xa722 <= v && v <= 0xa788)
                            } else {
                                (0xa78b <= v && v <= 0xa7cd) || (0xa7d0 <= v && v <= 0xa7d1) || v == 0xa7d3 || (0xa7d5 <= v && v <= 0xa7dc) || (0xa7f2 <= v && v <= 0xa827) || v == 0xa82c || (0xa840 <= v && v <= 0xa873) || (0xa880 <= v && v <= 0xa8c5)
                            }
                        }
                    } else {
                        if v < 0xaaf2 {
                            if v < 0xa9e0 {
                                (0xa8d0 <= v && v <= 0xa8d9) || (0xa8e0 <= v && v <= 0xa8f7) || v == 0xa8fb || (0xa8fd <= v && v <= 0xa92d) || (0xa930 <= v && v <= 0xa953) || (0xa960 <= v && v <= 0xa97c) || (0xa980 <= v && v <= 0xa9c0) || (0xa9cf <= v && v <= 0xa9d9)
                            } else {
                                (0xa9e0 <= v && v <= 0xa9fe) || (0xaa00 <= v && v <= 0xaa36) || (0xaa40 <= v && v <= 0xaa4d) || (0xaa50 <= v && v <= 0xaa59) || (0xaa60 <= v && v <= 0xaa76) || (0xaa7a <= v && v <= 0xaac2) || (0xaadb <= v && v <= 0xaadd) || (0xaae0 <= v && v <= 0xaaef)
                            }
                        } else {
                            if v < 0xab70 {
                                (0xaaf2 <= v && v <= 0xaaf6) || (0xab01 <= v && v <= 0xab06) || (0xab09 <= v && v <= 0xab0e) || (0xab11 <= v && v <= 0xab16) || (0xab20 <= v && v <= 0xab26) || (0xab28 <= v && v <= 0xab2e) || (0xab30 <= v && v <= 0xab5a) || (0xab5c <= v && v <= 0xab69)
                            } else {
                                (0xab70 <= v && v <= 0xabea) || (0xabec <= v && v <= 0xabed) || (0xabf0 <= v && v <= 0xabf9) || (0xac00 <= v && v <= 0xd7a3) || (0xd7b0 <= v && v <= 0xd7c6) || (0xd7cb <= v && v <= 0xd7fb) || (0xf900 <= v && v <= 0xfa6d) || (0xfa70 <= v && v <= 0xfad9)
                            }
                        }
                    }
                }
            }
        }
    } else {
        if v < 0x11a50 {
            if v < 0x10b80 {
                if v < 0x104a0 {
                    if v < 0xffc2 {
                        if v < 0xfb46 {
                            (0xfb00 <= v && v <= 0xfb06) || (0xfb13 <= v && v <= 0xfb17) || (0xfb1d <= v && v <= 0xfb28) || (0xfb2a <= v && v <= 0xfb36) || (0xfb38 <= v && v <= 0xfb3c) || v == 0xfb3e || (0xfb40 <= v && v <= 0xfb41) || (0xfb43 <= v && v <= 0xfb44)
                        } else {
                            if v < 0xfe4d {
                                (0xfb46 <= v && v <= 0xfbb1) || (0xfbd3 <= v && v <= 0xfd3d) || (0xfd50 <= v && v <= 0xfd8f) || (0xfd92 <= v && v <= 0xfdc7) || (0xfdf0 <= v && v <= 0xfdfb) || (0xfe00 <= v && v <= 0xfe0f) || (0xfe20 <= v && v <= 0xfe2f) || (0xfe33 <= v && v <= 0xfe34)
                            } else {
                                (0xfe4d <= v && v <= 0xfe4f) || (0xfe70 <= v && v <= 0xfe74) || (0xfe76 <= v && v <= 0xfefc) || (0xff10 <= v && v <= 0xff19) || (0xff21 <= v && v <= 0xff3a) || v == 0xff3f || (0xff41 <= v && v <= 0xff5a) || (0xff66 <= v && v <= 0xffbe)
                            }
                        }
                    } else {
                        if v < 0x1003f {
                            (0xffc2 <= v && v <= 0xffc7) || (0xffca <= v && v <= 0xffcf) || (0xffd2 <= v && v <= 0xffd7) || (0xffda <= v && v <= 0xffdc) || (0x10000 <= v && v <= 0x1000b) || (0x1000d <= v && v <= 0x10026) || (0x10028 <= v && v <= 0x1003a) || (0x1003c <= v && v <= 0x1003d)
                        } else {
                            if v < 0x10300 {
                                (0x1003f <= v && v <= 0x1004d) || (0x10050 <= v && v <= 0x1005d) || (0x10080 <= v && v <= 0x100fa) || (0x10140 <= v && v <= 0x10174) || v == 0x101fd || (0x10280 <= v && v <= 0x1029c) || (0x102a0 <= v && v <= 0x102d0) || v == 0x102e0
                            } else {
                                (0x10300 <= v && v <= 0x1031f) || (0x1032d <= v && v <= 0x1034a) || (0x10350 <= v && v <= 0x1037a) || (0x10380 <= v && v <= 0x1039d) || (0x103a0 <= v && v <= 0x103c3) || (0x103c8 <= v && v <= 0x103cf) || (0x103d1 <= v && v <= 0x103d5) || (0x10400 <= v && v <= 0x1049d)
                            }
                        }
                    }
                } else {
                    if v < 0x1083c {
                        if v < 0x10594 {
                            (0x104a0 <= v && v <= 0x104a9) || (0x104b0 <= v && v <= 0x104d3) || (0x104d8 <= v && v <= 0x104fb) || (0x10500 <= v && v <= 0x10527) || (0x10530 <= v && v <= 0x10563) || (0x10570 <= v && v <= 0x1057a) || (0x1057c <= v && v <= 0x1058a) || (0x1058c <= v && v <= 0x10592)
                        } else {
                            if v < 0x10760 {
                                (0x10594 <= v && v <= 0x10595) || (0x10597 <= v && v <= 0x105a1) || (0x105a3 <= v && v <= 0x105b1) || (0x105b3 <= v && v <= 0x105b9) || (0x105bb <= v && v <= 0x105bc) || (0x105c0 <= v && v <= 0x105f3) || (0x10600 <= v && v <= 0x10736) || (0x10740 <= v && v <= 0x10755)
                            } else {
                                (0x10760 <= v && v <= 0x10767) || (0x10780 <= v && v <= 0x10785) || (0x10787 <= v && v <= 0x107b0) || (0x107b2 <= v && v <= 0x107ba) || (0x10800 <= v && v <= 0x10805) || v == 0x10808 || (0x1080a <= v && v <= 0x10835) || (0x10837 <= v && v <= 0x10838)
                            }
                        }
                    } else {
                        if v < 0x10980 {
                            v == 0x1083c || (0x1083f <= v && v <= 0x10855) || (0x10860 <= v && v <= 0x10876) || (0x10880 <= v && v <= 0x1089e) || (0x108e0 <= v && v <= 0x108f2) || (0x108f4 <= v && v <= 0x108f5) || (0x10900 <= v && v <= 0x10915) || (0x10920 <= v && v <= 0x10939)
                        } else {
                            if v < 0x10a3f {
                                (0x10980 <= v && v <= 0x109b7) || (0x109be <= v && v <= 0x109bf) || (0x10a00 <= v && v <= 0x10a03) || (0x10a05 <= v && v <= 0x10a06) || (0x10a0c <= v && v <= 0x10a13) || (0x10a15 <= v && v <= 0x10a17) || (0x10a19 <= v && v <= 0x10a35) || (0x10a38 <= v && v <= 0x10a3a)
                            } else {
                                v == 0x10a3f || (0x10a60 <= v && v <= 0x10a7c) || (0x10a80 <= v && v <= 0x10a9c) || (0x10ac0 <= v && v <= 0x10ac7) || (0x10ac9 <= v && v <= 0x10ae6) || (0x10b00 <= v && v <= 0x10b35) || (0x10b40 <= v && v <= 0x10b55) || (0x10b60 <= v && v <= 0x10b72)
                            }
                        }
                    }
                }
            } else {
                if v < 0x1132a {
                    if v < 0x110f0 {
                        if v < 0x10d6f {
                            (0x10b80 <= v && v <= 0x10b91) || (0x10c00 <= v && v <= 0x10c48) || (0x10c80 <= v && v <= 0x10cb2) || (0x10cc0 <= v && v <= 0x10cf2) || (0x10d00 <= v && v <= 0x10d27) || (0x10d30 <= v && v <= 0x10d39) || (0x10d40 <= v && v <= 0x10d65) || (0x10d69 <= v && v <= 0x10d6d)
                        } else {
                            if v < 0x10f70 {
                                (0x10d6f <= v && v <= 0x10d85) || (0x10e80 <= v && v <= 0x10ea9) || (0x10eab <= v && v <= 0x10eac) || (0x10eb0 <= v && v <= 0x10eb1) || (0x10ec2 <= v && v <= 0x10ec4) || (0x10efc <= v && v <= 0x10f1c) || v == 0x10f27 || (0x10f30 <= v && v <= 0x10f50)
                            } else {
                                (0x10f70 <= v && v <= 0x10f85) || (0x10fb0 <= v && v <= 0x10fc4) || (0x10fe0 <= v && v <= 0x10ff6) || (0x11000 <= v && v <= 0x11046) || (0x11066 <= v && v <= 0x11075) || (0x1107f <= v && v <= 0x110ba) || v == 0x110c2 || (0x110d0 <= v && v <= 0x110e8)
                            }
                        }
                    } else {
                        if v < 0x111ce {
                            (0x110f0 <= v && v <= 0x110f9) || (0x11100 <= v && v <= 0x11134) || (0x11136 <= v && v <= 0x1113f) || (0x11144 <= v && v <= 0x11147) || (0x11150 <= v && v <= 0x11173) || v == 0x11176 || (0x11180 <= v && v <= 0x111c4) || (0x111c9 <= v && v <= 0x111cc)
                        } else {
                            if v < 0x1128f {
                                (0x111ce <= v && v <= 0x111da) || v == 0x111dc || (0x11200 <= v && v <= 0x11211) || (0x11213 <= v && v <= 0x11237) || (0x1123e <= v && v <= 0x11241) || (0x11280 <= v && v <= 0x11286) || v == 0x11288 || (0x1128a <= v && v <= 0x1128d)
                            } else {
                                (0x1128f <= v && v <= 0x1129d) || (0x1129f <= v && v <= 0x112a8) || (0x112b0 <= v && v <= 0x112ea) || (0x112f0 <= v && v <= 0x112f9) || (0x11300 <= v && v <= 0x11303) || (0x11305 <= v && v <= 0x1130c) || (0x1130f <= v && v <= 0x11310) || (0x11313 <= v && v <= 0x11328)
                            }
                        }
                    }
                } else {
                    if v < 0x11480 {
                        if v < 0x1135d {
                            (0x1132a <= v && v <= 0x11330) || (0x11332 <= v && v <= 0x11333) || (0x11335 <= v && v <= 0x11339) || (0x1133b <= v && v <= 0x11344) || (0x11347 <= v && v <= 0x11348) || (0x1134b <= v && v <= 0x1134d) || v == 0x11350 || v == 0x11357
                        } else {
                            if v < 0x113c2 {
                                (0x1135d <= v && v <= 0x11363) || (0x11366 <= v && v <= 0x1136c) || (0x11370 <= v && v <= 0x11374) || (0x11380 <= v && v <= 0x11389) || v == 0x1138b || v == 0x1138e || (0x11390 <= v && v <= 0x113b5) || (0x113b7 <= v && v <= 0x113c0)
                            } else {
                                v == 0x113c2 || v == 0x113c5 || (0x113c7 <= v && v <= 0x113ca) || (0x113cc <= v && v <= 0x113d3) || (0x113e1 <= v && v <= 0x113e2) || (0x11400 <= v && v <= 0x1144a) || (0x11450 <= v && v <= 0x11459) || (0x1145e <= v && v <= 0x11461)
                            }
                        }
                    } else {
                        if v < 0x11800 {
                            if v < 0x11650 {
                                (0x11480 <= v && v <= 0x114c5) || v == 0x114c7 || (0x114d0 <= v && v <= 0x114d9) || (0x11580 <= v && v <= 0x115b5) || (0x115b8 <= v && v <= 0x115c0) || (0x115d8 <= v && v <= 0x115dd) || (0x11600 <= v && v <= 0x11640) || v == 0x11644
                            } else {
                                (0x11650 <= v && v <= 0x11659) || (0x11680 <= v && v <= 0x116b8) || (0x116c0 <= v && v <= 0x116c9) || (0x116d0 <= v && v <= 0x116e3) || (0x11700 <= v && v <= 0x1171a) || (0x1171d <= v && v <= 0x1172b) || (0x11730 <= v && v <= 0x11739) || (0x11740 <= v && v <= 0x11746)
                            }
                        } else {
                            if v < 0x1193b {
                                (0x11800 <= v && v <= 0x1183a) || (0x118a0 <= v && v <= 0x118e9) || (0x118ff <= v && v <= 0x11906) || v == 0x11909 || (0x1190c <= v && v <= 0x11913) || (0x11915 <= v && v <= 0x11916) || (0x11918 <= v && v <= 0x11935) || (0x11937 <= v && v <= 0x11938)
                            } else {
                                (0x1193b <= v && v <= 0x11943) || (0x11950 <= v && v <= 0x11959) || (0x119a0 <= v && v <= 0x119a7) || (0x119aa <= v && v <= 0x119d7) || (0x119da <= v && v <= 0x119e1) || (0x119e3 <= v && v <= 0x119e4) || (0x11a00 <= v && v <= 0x11a3e) || v == 0x11a47
                            }
                        }
                    }
                }
            }
        } else {
            if v < 0x1d4c5 {
                if v < 0x16b40 {
                    if v < 0x11da0 {
                        if v < 0x11c50 {
                            (0x11a50 <= v && v <= 0x11a99) || v == 0x11a9d || (0x11ab0 <= v && v <= 0x11af8) || (0x11bc0 <= v && v <= 0x11be0) || (0x11bf0 <= v && v <= 0x11bf9) || (0x11c00 <= v && v <= 0x11c08) || (0x11c0a <= v && v <= 0x11c36) || (0x11c38 <= v && v <= 0x11c40)
                        } else {
                            if v < 0x11d3c {
                                (0x11c50 <= v && v <= 0x11c59) || (0x11c72 <= v && v <= 0x11c8f) || (0x11c92 <= v && v <= 0x11ca7) || (0x11ca9 <= v && v <= 0x11cb6) || (0x11d00 <= v && v <= 0x11d06) || (0x11d08 <= v && v <= 0x11d09) || (0x11d0b <= v && v <= 0x11d36) || v == 0x11d3a
                            } else {
                                (0x11d3c <= v && v <= 0x11d3d) || (0x11d3f <= v && v <= 0x11d47) || (0x11d50 <= v && v <= 0x11d59) || (0x11d60 <= v && v <= 0x11d65) || (0x11d67 <= v && v <= 0x11d68) || (0x11d6a <= v && v <= 0x11d8e) || (0x11d90 <= v && v <= 0x11d91) || (0x11d93 <= v && v <= 0x11d98)
                            }
                        }
                    } else {
                        if v < 0x12400 {
                            (0x11da0 <= v && v <= 0x11da9) || (0x11ee0 <= v && v <= 0x11ef6) || (0x11f00 <= v && v <= 0x11f10) || (0x11f12 <= v && v <= 0x11f3a) || (0x11f3e <= v && v <= 0x11f42) || (0x11f50 <= v && v <= 0x11f5a) || v == 0x11fb0 || (0x12000 <= v && v <= 0x12399)
                        } else {
                            if v < 0x16800 {
                                (0x12400 <= v && v <= 0x1246e) || (0x12480 <= v && v <= 0x12543) || (0x12f90 <= v && v <= 0x12ff0) || (0x13000 <= v && v <= 0x1342f) || (0x13440 <= v && v <= 0x13455) || (0x13460 <= v && v <= 0x143fa) || (0x14400 <= v && v <= 0x14646) || (0x16100 <= v && v <= 0x16139)
                            } else {
                                (0x16800 <= v && v <= 0x16a38) || (0x16a40 <= v && v <= 0x16a5e) || (0x16a60 <= v && v <= 0x16a69) || (0x16a70 <= v && v <= 0x16abe) || (0x16ac0 <= v && v <= 0x16ac9) || (0x16ad0 <= v && v <= 0x16aed) || (0x16af0 <= v && v <= 0x16af4) || (0x16b00 <= v && v <= 0x16b36)
                            }
                        }
                    }
                } else {
                    if v < 0x1b170 {
                        if v < 0x16f4f {
                            (0x16b40 <= v && v <= 0x16b43) || (0x16b50 <= v && v <= 0x16b59) || (0x16b63 <= v && v <= 0x16b77) || (0x16b7d <= v && v <= 0x16b8f) || (0x16d40 <= v && v <= 0x16d6c) || (0x16d70 <= v && v <= 0x16d79) || (0x16e40 <= v && v <= 0x16e7f) || (0x16f00 <= v && v <= 0x16f4a)
                        } else {
                            if v < 0x1aff0 {
                                (0x16f4f <= v && v <= 0x16f87) || (0x16f8f <= v && v <= 0x16f9f) || (0x16fe0 <= v && v <= 0x16fe1) || (0x16fe3 <= v && v <= 0x16fe4) || (0x16ff0 <= v && v <= 0x16ff1) || (0x17000 <= v && v <= 0x187f7) || (0x18800 <= v && v <= 0x18cd5) || (0x18cff <= v && v <= 0x18d08)
                            } else {
                                (0x1aff0 <= v && v <= 0x1aff3) || (0x1aff5 <= v && v <= 0x1affb) || (0x1affd <= v && v <= 0x1affe) || (0x1b000 <= v && v <= 0x1b122) || v == 0x1b132 || (0x1b150 <= v && v <= 0x1b152) || v == 0x1b155 || (0x1b164 <= v && v <= 0x1b167)
                            }
                        }
                    } else {
                        if v < 0x1cf30 {
                            (0x1b170 <= v && v <= 0x1b2fb) || (0x1bc00 <= v && v <= 0x1bc6a) || (0x1bc70 <= v && v <= 0x1bc7c) || (0x1bc80 <= v && v <= 0x1bc88) || (0x1bc90 <= v && v <= 0x1bc99) || (0x1bc9d <= v && v <= 0x1bc9e) || (0x1ccf0 <= v && v <= 0x1ccf9) || (0x1cf00 <= v && v <= 0x1cf2d)
                        } else {
                            if v < 0x1d456 {
                                (0x1cf30 <= v && v <= 0x1cf46) || (0x1d165 <= v && v <= 0x1d169) || (0x1d16d <= v && v <= 0x1d172) || (0x1d17b <= v && v <= 0x1d182) || (0x1d185 <= v && v <= 0x1d18b) || (0x1d1aa <= v && v <= 0x1d1ad) || (0x1d242 <= v && v <= 0x1d244) || (0x1d400 <= v && v <= 0x1d454)
                            } else {
                                (0x1d456 <= v && v <= 0x1d49c) || (0x1d49e <= v && v <= 0x1d49f) || v == 0x1d4a2 || (0x1d4a5 <= v && v <= 0x1d4a6) || (0x1d4a9 <= v && v <= 0x1d4ac) || (0x1d4ae <= v && v <= 0x1d4b9) || v == 0x1d4bb || (0x1d4bd <= v && v <= 0x1d4c3)
                            }
                        }
                    }
                }
            } else {
                if v < 0x1e7f0 {
                    if v < 0x1da75 {
                        if v < 0x1d54a {
                            (0x1d4c5 <= v && v <= 0x1d505) || (0x1d507 <= v && v <= 0x1d50a) || (0x1d50d <= v && v <= 0x1d514) || (0x1d516 <= v && v <= 0x1d51c) || (0x1d51e <= v && v <= 0x1d539) || (0x1d53b <= v && v <= 0x1d53e) || (0x1d540 <= v && v <= 0x1d544) || v == 0x1d546
                        } else {
                            if v < 0x1d750 {
                                (0x1d54a <= v && v <= 0x1d550) || (0x1d552 <= v && v <= 0x1d6a5) || (0x1d6a8 <= v && v <= 0x1d6c0) || (0x1d6c2 <= v && v <= 0x1d6da) || (0x1d6dc <= v && v <= 0x1d6fa) || (0x1d6fc <= v && v <= 0x1d714) || (0x1d716 <= v && v <= 0x1d734) || (0x1d736 <= v && v <= 0x1d74e)
                            } else {
                                (0x1d750 <= v && v <= 0x1d76e) || (0x1d770 <= v && v <= 0x1d788) || (0x1d78a <= v && v <= 0x1d7a8) || (0x1d7aa <= v && v <= 0x1d7c2) || (0x1d7c4 <= v && v <= 0x1d7cb) || (0x1d7ce <= v && v <= 0x1d7ff) || (0x1da00 <= v && v <= 0x1da36) || (0x1da3b <= v && v <= 0x1da6c)
                            }
                        }
                    } else {
                        if v < 0x1e01b {
                            v == 0x1da75 || v == 0x1da84 || (0x1da9b <= v && v <= 0x1da9f) || (0x1daa1 <= v && v <= 0x1daaf) || (0x1df00 <= v && v <= 0x1df1e) || (0x1df25 <= v && v <= 0x1df2a) || (0x1e000 <= v && v <= 0x1e006) || (0x1e008 <= v && v <= 0x1e018)
                        } else {
                            if v < 0x1e14e {
                                (0x1e01b <= v && v <= 0x1e021) || (0x1e023 <= v && v <= 0x1e024) || (0x1e026 <= v && v <= 0x1e02a) || (0x1e030 <= v && v <= 0x1e06d) || v == 0x1e08f || (0x1e100 <= v && v <= 0x1e12c) || (0x1e130 <= v && v <= 0x1e13d) || (0x1e140 <= v && v <= 0x1e149)
                            } else {
                                v == 0x1e14e || (0x1e290 <= v && v <= 0x1e2ae) || (0x1e2c0 <= v && v <= 0x1e2f9) || (0x1e4d0 <= v && v <= 0x1e4f9) || (0x1e5d0 <= v && v <= 0x1e5fa) || (0x1e7e0 <= v && v <= 0x1e7e6) || (0x1e7e8 <= v && v <= 0x1e7eb) || (0x1e7ed <= v && v <= 0x1e7ee)
                            }
                        }
                    }
                } else {
                    if v < 0x1ee5d {
                        if v < 0x1ee24 {
                            (0x1e7f0 <= v && v <= 0x1e7fe) || (0x1e800 <= v && v <= 0x1e8c4) || (0x1e8d0 <= v && v <= 0x1e8d6) || (0x1e900 <= v && v <= 0x1e94b) || (0x1e950 <= v && v <= 0x1e959) || (0x1ee00 <= v && v <= 0x1ee03) || (0x1ee05 <= v && v <= 0x1ee1f) || (0x1ee21 <= v && v <= 0x1ee22)
                        } else {
                            if v < 0x1ee49 {
                                v == 0x1ee24 || v == 0x1ee27 || (0x1ee29 <= v && v <= 0x1ee32) || (0x1ee34 <= v && v <= 0x1ee37) || v == 0x1ee39 || v == 0x1ee3b || v == 0x1ee42 || v == 0x1ee47
                            } else {
                                v == 0x1ee49 || v == 0x1ee4b || (0x1ee4d <= v && v <= 0x1ee4f) || (0x1ee51 <= v && v <= 0x1ee52) || v == 0x1ee54 || v == 0x1ee57 || v == 0x1ee59 || v == 0x1ee5b
                            }
                        }
                    } else {
                        if v < 0x1f170 {
                            if v < 0x1ee7e {
                                v == 0x1ee5d || v == 0x1ee5f || (0x1ee61 <= v && v <= 0x1ee62) || v == 0x1ee64 || (0x1ee67 <= v && v <= 0x1ee6a) || (0x1ee6c <= v && v <= 0x1ee72) || (0x1ee74 <= v && v <= 0x1ee77) || (0x1ee79 <= v && v <= 0x1ee7c)
                            } else {
                                v == 0x1ee7e || (0x1ee80 <= v && v <= 0x1ee89) || (0x1ee8b <= v && v <= 0x1ee9b) || (0x1eea1 <= v && v <= 0x1eea3) || (0x1eea5 <= v && v <= 0x1eea9) || (0x1eeab <= v && v <= 0x1eebb) || (0x1f130 <= v && v <= 0x1f149) || (0x1f150 <= v && v <= 0x1f169)
                            }
                        } else {
                            if v < 0x2f800 {
                                (0x1f170 <= v && v <= 0x1f189) || (0x1fbf0 <= v && v <= 0x1fbf9) || (0x20000 <= v && v <= 0x2a6df) || (0x2a700 <= v && v <= 0x2b739) || (0x2b740 <= v && v <= 0x2b81d) || (0x2b820 <= v && v <= 0x2cea1) || (0x2ceb0 <= v && v <= 0x2ebe0) || (0x2ebf0 <= v && v <= 0x2ee5d)
                            } else {
                                (0x2f800 <= v && v <= 0x2fa1d) || (0x30000 <= v && v <= 0x3134a) || (0x31350 <= v && v <= 0x323af) || (0xe0100 <= v && v <= 0xe01ef)
                            }
                        }
                    }
                }
            }
        }
    }
}

} // verus!
