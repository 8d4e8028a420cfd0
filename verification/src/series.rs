//! Expansion of E-series classes into their base value sets.
//!
//! Base values are held in hundredths (a value of `215` stands for 2.15),
//! the precision the series is defined to: every base value lies in
//! [1.00, 10.00) with exactly two decimal places.
//!
//! Two families of tables live here.  The computed tables follow the
//! geometric progression `round(10^(i / cardinality) * 100) / 100` and feed
//! the component expansion pipeline.  The standard tables hold the IEC
//! preferred values by series name and feed the library descriptors.

use vstd::prelude::*;
use crate::LibraryError;
use crate::str_eq;

verus! {

/// The series cardinalities that have a value table and a tolerance entry.
pub open spec fn supported_cardinality(n: int) -> bool {
    n == 3 || n == 6 || n == 12 || n == 24 || n == 48 || n == 96 || n == 192
}

/// The computed E3 base values, in hundredths, element by position.
pub open spec fn series_3_at(i: int) -> u16 {
    if i == 0 {
        100
    } else if i == 1 {
        215
    } else {
        464
    }
}

/// The computed E3 base values, in hundredths.
pub open spec fn spec_series_3() -> Seq<u16> {
    Seq::new(3, |i: int| series_3_at(i))
}

fn series_3_lookup(i: usize) -> (r: u16)
    ensures
        r == series_3_at(i as int),
{
    if i == 0 {
        100
    } else if i == 1 {
        215
    } else {
        464
    }
}

fn series_3_values() -> (r: Vec<u16>)
    ensures
        r@ == spec_series_3(),
{
    let mut v: Vec<u16> = Vec::new();
    for i in 0..3usize
        invariant
            v@.len() == i,
            forall|k: int| 0 <= k < i ==> v@[k] == series_3_at(k),
    {
        v.push(series_3_lookup(i));
    }
    proof {
        assert(v@ =~= spec_series_3());
    }
    v
}

/// The computed E6 base values, in hundredths, element by position.
pub open spec fn series_6_at(i: int) -> u16 {
    if i == 0 {
        100
    } else if i == 1 {
        147
    } else if i == 2 {
        215
    } else if i == 3 {
        316
    } else if i == 4 {
        464
    } else {
        681
    }
}

/// The computed E6 base values, in hundredths.
pub open spec fn spec_series_6() -> Seq<u16> {
    Seq::new(6, |i: int| series_6_at(i))
}

fn series_6_lookup(i: usize) -> (r: u16)
    ensures
        r == series_6_at(i as int),
{
    if i == 0 {
        100
    } else if i == 1 {
        147
    } else if i == 2 {
        215
    } else if i == 3 {
        316
    } else if i == 4 {
        464
    } else {
        681
    }
}

fn series_6_values() -> (r: Vec<u16>)
    ensures
        r@ == spec_series_6(),
{
    let mut v: Vec<u16> = Vec::new();
    for i in 0..6usize
        invariant
            v@.len() == i,
            forall|k: int| 0 <= k < i ==> v@[k] == series_6_at(k),
    {
        v.push(series_6_lookup(i));
    }
    proof {
        assert(v@ =~= spec_series_6());
    }
    v
}

/// The computed E12 base values, in hundredths, element by position.
pub open spec fn series_12_at(i: int) -> u16 {
    if i == 0 {
        100
    } else if i == 1 {
        121
    } else if i == 2 {
        147
    } else if i == 3 {
        178
    } else if i == 4 {
        215
    } else if i == 5 {
        261
    } else if i == 6 {
        316
    } else if i == 7 {
        383
    } else if i == 8 {
        464
    } else if i == 9 {
        562
    } else if i == 10 {
        681
    } else {
        825
    }
}

/// The computed E12 base values, in hundredths.
pub open spec fn spec_series_12() -> Seq<u16> {
    Seq::new(12, |i: int| series_12_at(i))
}

fn series_12_lookup(i: usize) -> (r: u16)
    ensures
        r == series_12_at(i as int),
{
    if i == 0 {
        100
    } else if i == 1 {
        121
    } else if i == 2 {
        147
    } else if i == 3 {
        178
    } else if i == 4 {
        215
    } else if i == 5 {
        261
    } else if i == 6 {
        316
    } else if i == 7 {
        383
    } else if i == 8 {
        464
    } else if i == 9 {
        562
    } else if i == 10 {
        681
    } else {
        825
    }
}

fn series_12_values() -> (r: Vec<u16>)
    ensures
        r@ == spec_series_12(),
{
    let mut v: Vec<u16> = Vec::new();
    for i in 0..12usize
        invariant
            v@.len() == i,
            forall|k: int| 0 <= k < i ==> v@[k] == series_12_at(k),
    {
        v.push(series_12_lookup(i));
    }
    proof {
        assert(v@ =~= spec_series_12());
    }
    v
}

/// The computed E24 base values, in hundredths, element by position.
pub open spec fn series_24_at(i: int) -> u16 {
    if i == 0 {
        100
    } else if i == 1 {
        110
    } else if i == 2 {
        121
    } else if i == 3 {
        133
    } else if i == 4 {
        147
    } else if i == 5 {
        162
    } else if i == 6 {
        178
    } else if i == 7 {
        196
    } else if i == 8 {
        215
    } else if i == 9 {
        237
    } else if i == 10 {
        261
    } else if i == 11 {
        287
    } else if i == 12 {
        316
    } else if i == 13 {
        348
    } else if i == 14 {
        383
    } else if i == 15 {
        422
    } else if i == 16 {
        464
    } else if i == 17 {
        511
    } else if i == 18 {
        562
    } else if i == 19 {
        619
    } else if i == 20 {
        681
    } else if i == 21 {
        750
    } else if i == 22 {
        825
    } else {
        909
    }
}

/// The computed E24 base values, in hundredths.
pub open spec fn spec_series_24() -> Seq<u16> {
    Seq::new(24, |i: int| series_24_at(i))
}

fn series_24_lookup(i: usize) -> (r: u16)
    ensures
        r == series_24_at(i as int),
{
    if i == 0 {
        100
    } else if i == 1 {
        110
    } else if i == 2 {
        121
    } else if i == 3 {
        133
    } else if i == 4 {
        147
    } else if i == 5 {
        162
    } else if i == 6 {
        178
    } else if i == 7 {
        196
    } else if i == 8 {
        215
    } else if i == 9 {
        237
    } else if i == 10 {
        261
    } else if i == 11 {
        287
    } else if i == 12 {
        316
    } else if i == 13 {
        348
    } else if i == 14 {
        383
    } else if i == 15 {
        422
    } else if i == 16 {
        464
    } else if i == 17 {
        511
    } else if i == 18 {
        562
    } else if i == 19 {
        619
    } else if i == 20 {
        681
    } else if i == 21 {
        750
    } else if i == 22 {
        825
    } else {
        909
    }
}

fn series_24_values() -> (r: Vec<u16>)
    ensures
        r@ == spec_series_24(),
{
    let mut v: Vec<u16> = Vec::new();
    for i in 0..24usize
        invariant
            v@.len() == i,
            forall|k: int| 0 <= k < i ==> v@[k] == series_24_at(k),
    {
        v.push(series_24_lookup(i));
    }
    proof {
        assert(v@ =~= spec_series_24());
    }
    v
}

/// The computed E48 base values, in hundredths, element by position.
pub open spec fn series_48_at(i: int) -> u16 {
    if i == 0 {
        100
    } else if i == 1 {
        105
    } else if i == 2 {
        110
    } else if i == 3 {
        115
    } else if i == 4 {
        121
    } else if i == 5 {
        127
    } else if i == 6 {
        133
    } else if i == 7 {
        140
    } else if i == 8 {
        147
    } else if i == 9 {
        154
    } else if i == 10 {
        162
    } else if i == 11 {
        169
    } else if i == 12 {
        178
    } else if i == 13 {
        187
    } else if i == 14 {
        196
    } else if i == 15 {
        205
    } else if i == 16 {
        215
    } else if i == 17 {
        226
    } else if i == 18 {
        237
    } else if i == 19 {
        249
    } else if i == 20 {
        261
    } else if i == 21 {
        274
    } else if i == 22 {
        287
    } else if i == 23 {
        301
    } else if i == 24 {
        316
    } else if i == 25 {
        332
    } else if i == 26 {
        348
    } else if i == 27 {
        365
    } else if i == 28 {
        383
    } else if i == 29 {
        402
    } else if i == 30 {
        422
    } else if i == 31 {
        442
    } else if i == 32 {
        464
    } else if i == 33 {
        487
    } else if i == 34 {
        511
    } else if i == 35 {
        536
    } else if i == 36 {
        562
    } else if i == 37 {
        590
    } else if i == 38 {
        619
    } else if i == 39 {
        649
    } else if i == 40 {
        681
    } else if i == 41 {
        715
    } else if i == 42 {
        750
    } else if i == 43 {
        787
    } else if i == 44 {
        825
    } else if i == 45 {
        866
    } else if i == 46 {
        909
    } else {
        953
    }
}

/// The computed E48 base values, in hundredths.
pub open spec fn spec_series_48() -> Seq<u16> {
    Seq::new(48, |i: int| series_48_at(i))
}

fn series_48_lookup(i: usize) -> (r: u16)
    ensures
        r == series_48_at(i as int),
{
    if i == 0 {
        100
    } else if i == 1 {
        105
    } else if i == 2 {
        110
    } else if i == 3 {
        115
    } else if i == 4 {
        121
    } else if i == 5 {
        127
    } else if i == 6 {
        133
    } else if i == 7 {
        140
    } else if i == 8 {
        147
    } else if i == 9 {
        154
    } else if i == 10 {
        162
    } else if i == 11 {
        169
    } else if i == 12 {
        178
    } else if i == 13 {
        187
    } else if i == 14 {
        196
    } else if i == 15 {
        205
    } else if i == 16 {
        215
    } else if i == 17 {
        226
    } else if i == 18 {
        237
    } else if i == 19 {
        249
    } else if i == 20 {
        261
    } else if i == 21 {
        274
    } else if i == 22 {
        287
    } else if i == 23 {
        301
    } else if i == 24 {
        316
    } else if i == 25 {
        332
    } else if i == 26 {
        348
    } else if i == 27 {
        365
    } else if i == 28 {
        383
    } else if i == 29 {
        402
    } else if i == 30 {
        422
    } else if i == 31 {
        442
    } else if i == 32 {
        464
    } else if i == 33 {
        487
    } else if i == 34 {
        511
    } else if i == 35 {
        536
    } else if i == 36 {
        562
    } else if i == 37 {
        590
    } else if i == 38 {
        619
    } else if i == 39 {
        649
    } else if i == 40 {
        681
    } else if i == 41 {
        715
    } else if i == 42 {
        750
    } else if i == 43 {
        787
    } else if i == 44 {
        825
    } else if i == 45 {
        866
    } else if i == 46 {
        909
    } else {
        953
    }
}

fn series_48_values() -> (r: Vec<u16>)
    ensures
        r@ == spec_series_48(),
{
    let mut v: Vec<u16> = Vec::new();
    for i in 0..48usize
        invariant
            v@.len() == i,
            forall|k: int| 0 <= k < i ==> v@[k] == series_48_at(k),
    {
        v.push(series_48_lookup(i));
    }
    proof {
        assert(v@ =~= spec_series_48());
    }
    v
}

/// The computed E96 base values, in hundredths, element by position.
pub open spec fn series_96_at(i: int) -> u16 {
    if i == 0 {
        100
    } else if i == 1 {
        102
    } else if i == 2 {
        105
    } else if i == 3 {
        107
    } else if i == 4 {
        110
    } else if i == 5 {
        113
    } else if i == 6 {
        115
    } else if i == 7 {
        118
    } else if i == 8 {
        121
    } else if i == 9 {
        124
    } else if i == 10 {
        127
    } else if i == 11 {
        130
    } else if i == 12 {
        133
    } else if i == 13 {
        137
    } else if i == 14 {
        140
    } else if i == 15 {
        143
    } else if i == 16 {
        147
    } else if i == 17 {
        150
    } else if i == 18 {
        154
    } else if i == 19 {
        158
    } else if i == 20 {
        162
    } else if i == 21 {
        165
    } else if i == 22 {
        169
    } else if i == 23 {
        174
    } else if i == 24 {
        178
    } else if i == 25 {
        182
    } else if i == 26 {
        187
    } else if i == 27 {
        191
    } else if i == 28 {
        196
    } else if i == 29 {
        200
    } else if i == 30 {
        205
    } else if i == 31 {
        210
    } else if i == 32 {
        215
    } else if i == 33 {
        221
    } else if i == 34 {
        226
    } else if i == 35 {
        232
    } else if i == 36 {
        237
    } else if i == 37 {
        243
    } else if i == 38 {
        249
    } else if i == 39 {
        255
    } else if i == 40 {
        261
    } else if i == 41 {
        267
    } else if i == 42 {
        274
    } else if i == 43 {
        280
    } else if i == 44 {
        287
    } else if i == 45 {
        294
    } else if i == 46 {
        301
    } else if i == 47 {
        309
    } else if i == 48 {
        316
    } else if i == 49 {
        324
    } else if i == 50 {
        332
    } else if i == 51 {
        340
    } else if i == 52 {
        348
    } else if i == 53 {
        357
    } else if i == 54 {
        365
    } else if i == 55 {
        374
    } else if i == 56 {
        383
    } else if i == 57 {
        392
    } else if i == 58 {
        402
    } else if i == 59 {
        412
    } else if i == 60 {
        422
    } else if i == 61 {
        432
    } else if i == 62 {
        442
    } else if i == 63 {
        453
    } else if i == 64 {
        464
    } else if i == 65 {
        475
    } else if i == 66 {
        487
    } else if i == 67 {
        499
    } else if i == 68 {
        511
    } else if i == 69 {
        523
    } else if i == 70 {
        536
    } else if i == 71 {
        549
    } else if i == 72 {
        562
    } else if i == 73 {
        576
    } else if i == 74 {
        590
    } else if i == 75 {
        604
    } else if i == 76 {
        619
    } else if i == 77 {
        634
    } else if i == 78 {
        649
    } else if i == 79 {
        665
    } else if i == 80 {
        681
    } else if i == 81 {
        698
    } else if i == 82 {
        715
    } else if i == 83 {
        732
    } else if i == 84 {
        750
    } else if i == 85 {
        768
    } else if i == 86 {
        787
    } else if i == 87 {
        806
    } else if i == 88 {
        825
    } else if i == 89 {
        845
    } else if i == 90 {
        866
    } else if i == 91 {
        887
    } else if i == 92 {
        909
    } else if i == 93 {
        931
    } else if i == 94 {
        953
    } else {
        976
    }
}

/// The computed E96 base values, in hundredths.
pub open spec fn spec_series_96() -> Seq<u16> {
    Seq::new(96, |i: int| series_96_at(i))
}

fn series_96_lookup(i: usize) -> (r: u16)
    ensures
        r == series_96_at(i as int),
{
    if i == 0 {
        100
    } else if i == 1 {
        102
    } else if i == 2 {
        105
    } else if i == 3 {
        107
    } else if i == 4 {
        110
    } else if i == 5 {
        113
    } else if i == 6 {
        115
    } else if i == 7 {
        118
    } else if i == 8 {
        121
    } else if i == 9 {
        124
    } else if i == 10 {
        127
    } else if i == 11 {
        130
    } else if i == 12 {
        133
    } else if i == 13 {
        137
    } else if i == 14 {
        140
    } else if i == 15 {
        143
    } else if i == 16 {
        147
    } else if i == 17 {
        150
    } else if i == 18 {
        154
    } else if i == 19 {
        158
    } else if i == 20 {
        162
    } else if i == 21 {
        165
    } else if i == 22 {
        169
    } else if i == 23 {
        174
    } else if i == 24 {
        178
    } else if i == 25 {
        182
    } else if i == 26 {
        187
    } else if i == 27 {
        191
    } else if i == 28 {
        196
    } else if i == 29 {
        200
    } else if i == 30 {
        205
    } else if i == 31 {
        210
    } else if i == 32 {
        215
    } else if i == 33 {
        221
    } else if i == 34 {
        226
    } else if i == 35 {
        232
    } else if i == 36 {
        237
    } else if i == 37 {
        243
    } else if i == 38 {
        249
    } else if i == 39 {
        255
    } else if i == 40 {
        261
    } else if i == 41 {
        267
    } else if i == 42 {
        274
    } else if i == 43 {
        280
    } else if i == 44 {
        287
    } else if i == 45 {
        294
    } else if i == 46 {
        301
    } else if i == 47 {
        309
    } else if i == 48 {
        316
    } else if i == 49 {
        324
    } else if i == 50 {
        332
    } else if i == 51 {
        340
    } else if i == 52 {
        348
    } else if i == 53 {
        357
    } else if i == 54 {
        365
    } else if i == 55 {
        374
    } else if i == 56 {
        383
    } else if i == 57 {
        392
    } else if i == 58 {
        402
    } else if i == 59 {
        412
    } else if i == 60 {
        422
    } else if i == 61 {
        432
    } else if i == 62 {
        442
    } else if i == 63 {
        453
    } else if i == 64 {
        464
    } else if i == 65 {
        475
    } else if i == 66 {
        487
    } else if i == 67 {
        499
    } else if i == 68 {
        511
    } else if i == 69 {
        523
    } else if i == 70 {
        536
    } else if i == 71 {
        549
    } else if i == 72 {
        562
    } else if i == 73 {
        576
    } else if i == 74 {
        590
    } else if i == 75 {
        604
    } else if i == 76 {
        619
    } else if i == 77 {
        634
    } else if i == 78 {
        649
    } else if i == 79 {
        665
    } else if i == 80 {
        681
    } else if i == 81 {
        698
    } else if i == 82 {
        715
    } else if i == 83 {
        732
    } else if i == 84 {
        750
    } else if i == 85 {
        768
    } else if i == 86 {
        787
    } else if i == 87 {
        806
    } else if i == 88 {
        825
    } else if i == 89 {
        845
    } else if i == 90 {
        866
    } else if i == 91 {
        887
    } else if i == 92 {
        909
    } else if i == 93 {
        931
    } else if i == 94 {
        953
    } else {
        976
    }
}

fn series_96_values() -> (r: Vec<u16>)
    ensures
        r@ == spec_series_96(),
{
    let mut v: Vec<u16> = Vec::new();
    for i in 0..96usize
        invariant
            v@.len() == i,
            forall|k: int| 0 <= k < i ==> v@[k] == series_96_at(k),
    {
        v.push(series_96_lookup(i));
    }
    proof {
        assert(v@ =~= spec_series_96());
    }
    v
}

/// The computed E192 base values, in hundredths, element by position.
pub open spec fn series_192_at(i: int) -> u16 {
    if i == 0 {
        100
    } else if i == 1 {
        101
    } else if i == 2 {
        102
    } else if i == 3 {
        104
    } else if i == 4 {
        105
    } else if i == 5 {
        106
    } else if i == 6 {
        107
    } else if i == 7 {
        109
    } else if i == 8 {
        110
    } else if i == 9 {
        111
    } else if i == 10 {
        113
    } else if i == 11 {
        114
    } else if i == 12 {
        115
    } else if i == 13 {
        117
    } else if i == 14 {
        118
    } else if i == 15 {
        120
    } else if i == 16 {
        121
    } else if i == 17 {
        123
    } else if i == 18 {
        124
    } else if i == 19 {
        126
    } else if i == 20 {
        127
    } else if i == 21 {
        129
    } else if i == 22 {
        130
    } else if i == 23 {
        132
    } else if i == 24 {
        133
    } else if i == 25 {
        135
    } else if i == 26 {
        137
    } else if i == 27 {
        138
    } else if i == 28 {
        140
    } else if i == 29 {
        142
    } else if i == 30 {
        143
    } else if i == 31 {
        145
    } else if i == 32 {
        147
    } else if i == 33 {
        149
    } else if i == 34 {
        150
    } else if i == 35 {
        152
    } else if i == 36 {
        154
    } else if i == 37 {
        156
    } else if i == 38 {
        158
    } else if i == 39 {
        160
    } else if i == 40 {
        162
    } else if i == 41 {
        164
    } else if i == 42 {
        165
    } else if i == 43 {
        167
    } else if i == 44 {
        169
    } else if i == 45 {
        172
    } else if i == 46 {
        174
    } else if i == 47 {
        176
    } else if i == 48 {
        178
    } else if i == 49 {
        180
    } else if i == 50 {
        182
    } else if i == 51 {
        184
    } else if i == 52 {
        187
    } else if i == 53 {
        189
    } else if i == 54 {
        191
    } else if i == 55 {
        193
    } else if i == 56 {
        196
    } else if i == 57 {
        198
    } else if i == 58 {
        200
    } else if i == 59 {
        203
    } else if i == 60 {
        205
    } else if i == 61 {
        208
    } else if i == 62 {
        210
    } else if i == 63 {
        213
    } else if i == 64 {
        215
    } else if i == 65 {
        218
    } else if i == 66 {
        221
    } else if i == 67 {
        223
    } else if i == 68 {
        226
    } else if i == 69 {
        229
    } else if i == 70 {
        232
    } else if i == 71 {
        234
    } else if i == 72 {
        237
    } else if i == 73 {
        240
    } else if i == 74 {
        243
    } else if i == 75 {
        246
    } else if i == 76 {
        249
    } else if i == 77 {
        252
    } else if i == 78 {
        255
    } else if i == 79 {
        258
    } else if i == 80 {
        261
    } else if i == 81 {
        264
    } else if i == 82 {
        267
    } else if i == 83 {
        271
    } else if i == 84 {
        274
    } else if i == 85 {
        277
    } else if i == 86 {
        280
    } else if i == 87 {
        284
    } else if i == 88 {
        287
    } else if i == 89 {
        291
    } else if i == 90 {
        294
    } else if i == 91 {
        298
    } else if i == 92 {
        301
    } else if i == 93 {
        305
    } else if i == 94 {
        309
    } else if i == 95 {
        312
    } else if i == 96 {
        316
    } else if i == 97 {
        320
    } else if i == 98 {
        324
    } else if i == 99 {
        328
    } else if i == 100 {
        332
    } else if i == 101 {
        336
    } else if i == 102 {
        340
    } else if i == 103 {
        344
    } else if i == 104 {
        348
    } else if i == 105 {
        352
    } else if i == 106 {
        357
    } else if i == 107 {
        361
    } else if i == 108 {
        365
    } else if i == 109 {
        370
    } else if i == 110 {
        374
    } else if i == 111 {
        379
    } else if i == 112 {
        383
    } else if i == 113 {
        388
    } else if i == 114 {
        392
    } else if i == 115 {
        397
    } else if i == 116 {
        402
    } else if i == 117 {
        407
    } else if i == 118 {
        412
    } else if i == 119 {
        417
    } else if i == 120 {
        422
    } else if i == 121 {
        427
    } else if i == 122 {
        432
    } else if i == 123 {
        437
    } else if i == 124 {
        442
    } else if i == 125 {
        448
    } else if i == 126 {
        453
    } else if i == 127 {
        459
    } else if i == 128 {
        464
    } else if i == 129 {
        470
    } else if i == 130 {
        475
    } else if i == 131 {
        481
    } else if i == 132 {
        487
    } else if i == 133 {
        493
    } else if i == 134 {
        499
    } else if i == 135 {
        505
    } else if i == 136 {
        511
    } else if i == 137 {
        517
    } else if i == 138 {
        523
    } else if i == 139 {
        530
    } else if i == 140 {
        536
    } else if i == 141 {
        542
    } else if i == 142 {
        549
    } else if i == 143 {
        556
    } else if i == 144 {
        562
    } else if i == 145 {
        569
    } else if i == 146 {
        576
    } else if i == 147 {
        583
    } else if i == 148 {
        590
    } else if i == 149 {
        597
    } else if i == 150 {
        604
    } else if i == 151 {
        612
    } else if i == 152 {
        619
    } else if i == 153 {
        626
    } else if i == 154 {
        634
    } else if i == 155 {
        642
    } else if i == 156 {
        649
    } else if i == 157 {
        657
    } else if i == 158 {
        665
    } else if i == 159 {
        673
    } else if i == 160 {
        681
    } else if i == 161 {
        690
    } else if i == 162 {
        698
    } else if i == 163 {
        706
    } else if i == 164 {
        715
    } else if i == 165 {
        723
    } else if i == 166 {
        732
    } else if i == 167 {
        741
    } else if i == 168 {
        750
    } else if i == 169 {
        759
    } else if i == 170 {
        768
    } else if i == 171 {
        777
    } else if i == 172 {
        787
    } else if i == 173 {
        796
    } else if i == 174 {
        806
    } else if i == 175 {
        816
    } else if i == 176 {
        825
    } else if i == 177 {
        835
    } else if i == 178 {
        845
    } else if i == 179 {
        856
    } else if i == 180 {
        866
    } else if i == 181 {
        876
    } else if i == 182 {
        887
    } else if i == 183 {
        898
    } else if i == 184 {
        909
    } else if i == 185 {
        919
    } else if i == 186 {
        931
    } else if i == 187 {
        942
    } else if i == 188 {
        953
    } else if i == 189 {
        965
    } else if i == 190 {
        976
    } else {
        988
    }
}

/// The computed E192 base values, in hundredths.
pub open spec fn spec_series_192() -> Seq<u16> {
    Seq::new(192, |i: int| series_192_at(i))
}

fn series_192_lookup(i: usize) -> (r: u16)
    ensures
        r == series_192_at(i as int),
{
    if i == 0 {
        100
    } else if i == 1 {
        101
    } else if i == 2 {
        102
    } else if i == 3 {
        104
    } else if i == 4 {
        105
    } else if i == 5 {
        106
    } else if i == 6 {
        107
    } else if i == 7 {
        109
    } else if i == 8 {
        110
    } else if i == 9 {
        111
    } else if i == 10 {
        113
    } else if i == 11 {
        114
    } else if i == 12 {
        115
    } else if i == 13 {
        117
    } else if i == 14 {
        118
    } else if i == 15 {
        120
    } else if i == 16 {
        121
    } else if i == 17 {
        123
    } else if i == 18 {
        124
    } else if i == 19 {
        126
    } else if i == 20 {
        127
    } else if i == 21 {
        129
    } else if i == 22 {
        130
    } else if i == 23 {
        132
    } else if i == 24 {
        133
    } else if i == 25 {
        135
    } else if i == 26 {
        137
    } else if i == 27 {
        138
    } else if i == 28 {
        140
    } else if i == 29 {
        142
    } else if i == 30 {
        143
    } else if i == 31 {
        145
    } else if i == 32 {
        147
    } else if i == 33 {
        149
    } else if i == 34 {
        150
    } else if i == 35 {
        152
    } else if i == 36 {
        154
    } else if i == 37 {
        156
    } else if i == 38 {
        158
    } else if i == 39 {
        160
    } else if i == 40 {
        162
    } else if i == 41 {
        164
    } else if i == 42 {
        165
    } else if i == 43 {
        167
    } else if i == 44 {
        169
    } else if i == 45 {
        172
    } else if i == 46 {
        174
    } else if i == 47 {
        176
    } else if i == 48 {
        178
    } else if i == 49 {
        180
    } else if i == 50 {
        182
    } else if i == 51 {
        184
    } else if i == 52 {
        187
    } else if i == 53 {
        189
    } else if i == 54 {
        191
    } else if i == 55 {
        193
    } else if i == 56 {
        196
    } else if i == 57 {
        198
    } else if i == 58 {
        200
    } else if i == 59 {
        203
    } else if i == 60 {
        205
    } else if i == 61 {
        208
    } else if i == 62 {
        210
    } else if i == 63 {
        213
    } else if i == 64 {
        215
    } else if i == 65 {
        218
    } else if i == 66 {
        221
    } else if i == 67 {
        223
    } else if i == 68 {
        226
    } else if i == 69 {
        229
    } else if i == 70 {
        232
    } else if i == 71 {
        234
    } else if i == 72 {
        237
    } else if i == 73 {
        240
    } else if i == 74 {
        243
    } else if i == 75 {
        246
    } else if i == 76 {
        249
    } else if i == 77 {
        252
    } else if i == 78 {
        255
    } else if i == 79 {
        258
    } else if i == 80 {
        261
    } else if i == 81 {
        264
    } else if i == 82 {
        267
    } else if i == 83 {
        271
    } else if i == 84 {
        274
    } else if i == 85 {
        277
    } else if i == 86 {
        280
    } else if i == 87 {
        284
    } else if i == 88 {
        287
    } else if i == 89 {
        291
    } else if i == 90 {
        294
    } else if i == 91 {
        298
    } else if i == 92 {
        301
    } else if i == 93 {
        305
    } else if i == 94 {
        309
    } else if i == 95 {
        312
    } else if i == 96 {
        316
    } else if i == 97 {
        320
    } else if i == 98 {
        324
    } else if i == 99 {
        328
    } else if i == 100 {
        332
    } else if i == 101 {
        336
    } else if i == 102 {
        340
    } else if i == 103 {
        344
    } else if i == 104 {
        348
    } else if i == 105 {
        352
    } else if i == 106 {
        357
    } else if i == 107 {
        361
    } else if i == 108 {
        365
    } else if i == 109 {
        370
    } else if i == 110 {
        374
    } else if i == 111 {
        379
    } else if i == 112 {
        383
    } else if i == 113 {
        388
    } else if i == 114 {
        392
    } else if i == 115 {
        397
    } else if i == 116 {
        402
    } else if i == 117 {
        407
    } else if i == 118 {
        412
    } else if i == 119 {
        417
    } else if i == 120 {
        422
    } else if i == 121 {
        427
    } else if i == 122 {
        432
    } else if i == 123 {
        437
    } else if i == 124 {
        442
    } else if i == 125 {
        448
    } else if i == 126 {
        453
    } else if i == 127 {
        459
    } else if i == 128 {
        464
    } else if i == 129 {
        470
    } else if i == 130 {
        475
    } else if i == 131 {
        481
    } else if i == 132 {
        487
    } else if i == 133 {
        493
    } else if i == 134 {
        499
    } else if i == 135 {
        505
    } else if i == 136 {
        511
    } else if i == 137 {
        517
    } else if i == 138 {
        523
    } else if i == 139 {
        530
    } else if i == 140 {
        536
    } else if i == 141 {
        542
    } else if i == 142 {
        549
    } else if i == 143 {
        556
    } else if i == 144 {
        562
    } else if i == 145 {
        569
    } else if i == 146 {
        576
    } else if i == 147 {
        583
    } else if i == 148 {
        590
    } else if i == 149 {
        597
    } else if i == 150 {
        604
    } else if i == 151 {
        612
    } else if i == 152 {
        619
    } else if i == 153 {
        626
    } else if i == 154 {
        634
    } else if i == 155 {
        642
    } else if i == 156 {
        649
    } else if i == 157 {
        657
    } else if i == 158 {
        665
    } else if i == 159 {
        673
    } else if i == 160 {
        681
    } else if i == 161 {
        690
    } else if i == 162 {
        698
    } else if i == 163 {
        706
    } else if i == 164 {
        715
    } else if i == 165 {
        723
    } else if i == 166 {
        732
    } else if i == 167 {
        741
    } else if i == 168 {
        750
    } else if i == 169 {
        759
    } else if i == 170 {
        768
    } else if i == 171 {
        777
    } else if i == 172 {
        787
    } else if i == 173 {
        796
    } else if i == 174 {
        806
    } else if i == 175 {
        816
    } else if i == 176 {
        825
    } else if i == 177 {
        835
    } else if i == 178 {
        845
    } else if i == 179 {
        856
    } else if i == 180 {
        866
    } else if i == 181 {
        876
    } else if i == 182 {
        887
    } else if i == 183 {
        898
    } else if i == 184 {
        909
    } else if i == 185 {
        919
    } else if i == 186 {
        931
    } else if i == 187 {
        942
    } else if i == 188 {
        953
    } else if i == 189 {
        965
    } else if i == 190 {
        976
    } else {
        988
    }
}

fn series_192_values() -> (r: Vec<u16>)
    ensures
        r@ == spec_series_192(),
{
    let mut v: Vec<u16> = Vec::new();
    for i in 0..192usize
        invariant
            v@.len() == i,
            forall|k: int| 0 <= k < i ==> v@[k] == series_192_at(k),
    {
        v.push(series_192_lookup(i));
    }
    proof {
        assert(v@ =~= spec_series_192());
    }
    v
}

/// The standard E96 preferred values, in hundredths, element by position.
pub open spec fn std_e96_at(i: int) -> u16 {
    if i == 0 {
        100
    } else if i == 1 {
        102
    } else if i == 2 {
        105
    } else if i == 3 {
        107
    } else if i == 4 {
        110
    } else if i == 5 {
        113
    } else if i == 6 {
        115
    } else if i == 7 {
        118
    } else if i == 8 {
        121
    } else if i == 9 {
        124
    } else if i == 10 {
        127
    } else if i == 11 {
        130
    } else if i == 12 {
        133
    } else if i == 13 {
        137
    } else if i == 14 {
        140
    } else if i == 15 {
        143
    } else if i == 16 {
        147
    } else if i == 17 {
        150
    } else if i == 18 {
        154
    } else if i == 19 {
        158
    } else if i == 20 {
        162
    } else if i == 21 {
        165
    } else if i == 22 {
        169
    } else if i == 23 {
        174
    } else if i == 24 {
        178
    } else if i == 25 {
        182
    } else if i == 26 {
        187
    } else if i == 27 {
        191
    } else if i == 28 {
        196
    } else if i == 29 {
        200
    } else if i == 30 {
        205
    } else if i == 31 {
        210
    } else if i == 32 {
        215
    } else if i == 33 {
        221
    } else if i == 34 {
        226
    } else if i == 35 {
        232
    } else if i == 36 {
        237
    } else if i == 37 {
        243
    } else if i == 38 {
        249
    } else if i == 39 {
        255
    } else if i == 40 {
        261
    } else if i == 41 {
        267
    } else if i == 42 {
        274
    } else if i == 43 {
        280
    } else if i == 44 {
        287
    } else if i == 45 {
        294
    } else if i == 46 {
        301
    } else if i == 47 {
        309
    } else if i == 48 {
        316
    } else if i == 49 {
        324
    } else if i == 50 {
        332
    } else if i == 51 {
        340
    } else if i == 52 {
        348
    } else if i == 53 {
        357
    } else if i == 54 {
        365
    } else if i == 55 {
        374
    } else if i == 56 {
        383
    } else if i == 57 {
        392
    } else if i == 58 {
        402
    } else if i == 59 {
        412
    } else if i == 60 {
        422
    } else if i == 61 {
        432
    } else if i == 62 {
        442
    } else if i == 63 {
        453
    } else if i == 64 {
        464
    } else if i == 65 {
        475
    } else if i == 66 {
        487
    } else if i == 67 {
        499
    } else if i == 68 {
        511
    } else if i == 69 {
        523
    } else if i == 70 {
        536
    } else if i == 71 {
        549
    } else if i == 72 {
        562
    } else if i == 73 {
        576
    } else if i == 74 {
        590
    } else if i == 75 {
        604
    } else if i == 76 {
        619
    } else if i == 77 {
        634
    } else if i == 78 {
        649
    } else if i == 79 {
        665
    } else if i == 80 {
        681
    } else if i == 81 {
        698
    } else if i == 82 {
        715
    } else if i == 83 {
        732
    } else if i == 84 {
        750
    } else if i == 85 {
        768
    } else if i == 86 {
        787
    } else if i == 87 {
        806
    } else if i == 88 {
        825
    } else if i == 89 {
        845
    } else if i == 90 {
        866
    } else if i == 91 {
        887
    } else if i == 92 {
        909
    } else if i == 93 {
        931
    } else if i == 94 {
        953
    } else {
        976
    }
}

/// The standard E96 preferred values, in hundredths.
pub open spec fn spec_std_e96() -> Seq<u16> {
    Seq::new(96, |i: int| std_e96_at(i))
}

fn std_e96_lookup(i: usize) -> (r: u16)
    ensures
        r == std_e96_at(i as int),
{
    if i == 0 {
        100
    } else if i == 1 {
        102
    } else if i == 2 {
        105
    } else if i == 3 {
        107
    } else if i == 4 {
        110
    } else if i == 5 {
        113
    } else if i == 6 {
        115
    } else if i == 7 {
        118
    } else if i == 8 {
        121
    } else if i == 9 {
        124
    } else if i == 10 {
        127
    } else if i == 11 {
        130
    } else if i == 12 {
        133
    } else if i == 13 {
        137
    } else if i == 14 {
        140
    } else if i == 15 {
        143
    } else if i == 16 {
        147
    } else if i == 17 {
        150
    } else if i == 18 {
        154
    } else if i == 19 {
        158
    } else if i == 20 {
        162
    } else if i == 21 {
        165
    } else if i == 22 {
        169
    } else if i == 23 {
        174
    } else if i == 24 {
        178
    } else if i == 25 {
        182
    } else if i == 26 {
        187
    } else if i == 27 {
        191
    } else if i == 28 {
        196
    } else if i == 29 {
        200
    } else if i == 30 {
        205
    } else if i == 31 {
        210
    } else if i == 32 {
        215
    } else if i == 33 {
        221
    } else if i == 34 {
        226
    } else if i == 35 {
        232
    } else if i == 36 {
        237
    } else if i == 37 {
        243
    } else if i == 38 {
        249
    } else if i == 39 {
        255
    } else if i == 40 {
        261
    } else if i == 41 {
        267
    } else if i == 42 {
        274
    } else if i == 43 {
        280
    } else if i == 44 {
        287
    } else if i == 45 {
        294
    } else if i == 46 {
        301
    } else if i == 47 {
        309
    } else if i == 48 {
        316
    } else if i == 49 {
        324
    } else if i == 50 {
        332
    } else if i == 51 {
        340
    } else if i == 52 {
        348
    } else if i == 53 {
        357
    } else if i == 54 {
        365
    } else if i == 55 {
        374
    } else if i == 56 {
        383
    } else if i == 57 {
        392
    } else if i == 58 {
        402
    } else if i == 59 {
        412
    } else if i == 60 {
        422
    } else if i == 61 {
        432
    } else if i == 62 {
        442
    } else if i == 63 {
        453
    } else if i == 64 {
        464
    } else if i == 65 {
        475
    } else if i == 66 {
        487
    } else if i == 67 {
        499
    } else if i == 68 {
        511
    } else if i == 69 {
        523
    } else if i == 70 {
        536
    } else if i == 71 {
        549
    } else if i == 72 {
        562
    } else if i == 73 {
        576
    } else if i == 74 {
        590
    } else if i == 75 {
        604
    } else if i == 76 {
        619
    } else if i == 77 {
        634
    } else if i == 78 {
        649
    } else if i == 79 {
        665
    } else if i == 80 {
        681
    } else if i == 81 {
        698
    } else if i == 82 {
        715
    } else if i == 83 {
        732
    } else if i == 84 {
        750
    } else if i == 85 {
        768
    } else if i == 86 {
        787
    } else if i == 87 {
        806
    } else if i == 88 {
        825
    } else if i == 89 {
        845
    } else if i == 90 {
        866
    } else if i == 91 {
        887
    } else if i == 92 {
        909
    } else if i == 93 {
        931
    } else if i == 94 {
        953
    } else {
        976
    }
}

fn std_e96_values() -> (r: Vec<u16>)
    ensures
        r@ == spec_std_e96(),
{
    let mut v: Vec<u16> = Vec::new();
    for i in 0..96usize
        invariant
            v@.len() == i,
            forall|k: int| 0 <= k < i ==> v@[k] == std_e96_at(k),
    {
        v.push(std_e96_lookup(i));
    }
    proof {
        assert(v@ =~= spec_std_e96());
    }
    v
}

/// The standard E48 preferred values, in hundredths, element by position.
pub open spec fn std_e48_at(i: int) -> u16 {
    if i == 0 {
        100
    } else if i == 1 {
        105
    } else if i == 2 {
        110
    } else if i == 3 {
        115
    } else if i == 4 {
        121
    } else if i == 5 {
        127
    } else if i == 6 {
        133
    } else if i == 7 {
        140
    } else if i == 8 {
        147
    } else if i == 9 {
        154
    } else if i == 10 {
        162
    } else if i == 11 {
        169
    } else if i == 12 {
        178
    } else if i == 13 {
        187
    } else if i == 14 {
        196
    } else if i == 15 {
        205
    } else if i == 16 {
        215
    } else if i == 17 {
        226
    } else if i == 18 {
        237
    } else if i == 19 {
        249
    } else if i == 20 {
        261
    } else if i == 21 {
        274
    } else if i == 22 {
        287
    } else if i == 23 {
        301
    } else if i == 24 {
        316
    } else if i == 25 {
        332
    } else if i == 26 {
        348
    } else if i == 27 {
        365
    } else if i == 28 {
        383
    } else if i == 29 {
        402
    } else if i == 30 {
        422
    } else if i == 31 {
        442
    } else if i == 32 {
        464
    } else if i == 33 {
        487
    } else if i == 34 {
        511
    } else if i == 35 {
        536
    } else if i == 36 {
        562
    } else if i == 37 {
        590
    } else if i == 38 {
        619
    } else if i == 39 {
        649
    } else if i == 40 {
        681
    } else if i == 41 {
        715
    } else if i == 42 {
        750
    } else if i == 43 {
        787
    } else if i == 44 {
        825
    } else if i == 45 {
        866
    } else if i == 46 {
        909
    } else {
        953
    }
}

/// The standard E48 preferred values, in hundredths.
pub open spec fn spec_std_e48() -> Seq<u16> {
    Seq::new(48, |i: int| std_e48_at(i))
}

fn std_e48_lookup(i: usize) -> (r: u16)
    ensures
        r == std_e48_at(i as int),
{
    if i == 0 {
        100
    } else if i == 1 {
        105
    } else if i == 2 {
        110
    } else if i == 3 {
        115
    } else if i == 4 {
        121
    } else if i == 5 {
        127
    } else if i == 6 {
        133
    } else if i == 7 {
        140
    } else if i == 8 {
        147
    } else if i == 9 {
        154
    } else if i == 10 {
        162
    } else if i == 11 {
        169
    } else if i == 12 {
        178
    } else if i == 13 {
        187
    } else if i == 14 {
        196
    } else if i == 15 {
        205
    } else if i == 16 {
        215
    } else if i == 17 {
        226
    } else if i == 18 {
        237
    } else if i == 19 {
        249
    } else if i == 20 {
        261
    } else if i == 21 {
        274
    } else if i == 22 {
        287
    } else if i == 23 {
        301
    } else if i == 24 {
        316
    } else if i == 25 {
        332
    } else if i == 26 {
        348
    } else if i == 27 {
        365
    } else if i == 28 {
        383
    } else if i == 29 {
        402
    } else if i == 30 {
        422
    } else if i == 31 {
        442
    } else if i == 32 {
        464
    } else if i == 33 {
        487
    } else if i == 34 {
        511
    } else if i == 35 {
        536
    } else if i == 36 {
        562
    } else if i == 37 {
        590
    } else if i == 38 {
        619
    } else if i == 39 {
        649
    } else if i == 40 {
        681
    } else if i == 41 {
        715
    } else if i == 42 {
        750
    } else if i == 43 {
        787
    } else if i == 44 {
        825
    } else if i == 45 {
        866
    } else if i == 46 {
        909
    } else {
        953
    }
}

fn std_e48_values() -> (r: Vec<u16>)
    ensures
        r@ == spec_std_e48(),
{
    let mut v: Vec<u16> = Vec::new();
    for i in 0..48usize
        invariant
            v@.len() == i,
            forall|k: int| 0 <= k < i ==> v@[k] == std_e48_at(k),
    {
        v.push(std_e48_lookup(i));
    }
    proof {
        assert(v@ =~= spec_std_e48());
    }
    v
}

/// The standard E24 preferred values, in hundredths, element by position.
pub open spec fn std_e24_at(i: int) -> u16 {
    if i == 0 {
        100
    } else if i == 1 {
        110
    } else if i == 2 {
        120
    } else if i == 3 {
        130
    } else if i == 4 {
        150
    } else if i == 5 {
        160
    } else if i == 6 {
        180
    } else if i == 7 {
        200
    } else if i == 8 {
        220
    } else if i == 9 {
        240
    } else if i == 10 {
        270
    } else if i == 11 {
        300
    } else if i == 12 {
        330
    } else if i == 13 {
        360
    } else if i == 14 {
        390
    } else if i == 15 {
        430
    } else if i == 16 {
        470
    } else if i == 17 {
        510
    } else if i == 18 {
        560
    } else if i == 19 {
        620
    } else if i == 20 {
        680
    } else if i == 21 {
        750
    } else if i == 22 {
        820
    } else {
        910
    }
}

/// The standard E24 preferred values, in hundredths.
pub open spec fn spec_std_e24() -> Seq<u16> {
    Seq::new(24, |i: int| std_e24_at(i))
}

fn std_e24_lookup(i: usize) -> (r: u16)
    ensures
        r == std_e24_at(i as int),
{
    if i == 0 {
        100
    } else if i == 1 {
        110
    } else if i == 2 {
        120
    } else if i == 3 {
        130
    } else if i == 4 {
        150
    } else if i == 5 {
        160
    } else if i == 6 {
        180
    } else if i == 7 {
        200
    } else if i == 8 {
        220
    } else if i == 9 {
        240
    } else if i == 10 {
        270
    } else if i == 11 {
        300
    } else if i == 12 {
        330
    } else if i == 13 {
        360
    } else if i == 14 {
        390
    } else if i == 15 {
        430
    } else if i == 16 {
        470
    } else if i == 17 {
        510
    } else if i == 18 {
        560
    } else if i == 19 {
        620
    } else if i == 20 {
        680
    } else if i == 21 {
        750
    } else if i == 22 {
        820
    } else {
        910
    }
}

fn std_e24_values() -> (r: Vec<u16>)
    ensures
        r@ == spec_std_e24(),
{
    let mut v: Vec<u16> = Vec::new();
    for i in 0..24usize
        invariant
            v@.len() == i,
            forall|k: int| 0 <= k < i ==> v@[k] == std_e24_at(k),
    {
        v.push(std_e24_lookup(i));
    }
    proof {
        assert(v@ =~= spec_std_e24());
    }
    v
}

/// The standard E12 preferred values, in hundredths, element by position.
pub open spec fn std_e12_at(i: int) -> u16 {
    if i == 0 {
        100
    } else if i == 1 {
        120
    } else if i == 2 {
        150
    } else if i == 3 {
        180
    } else if i == 4 {
        220
    } else if i == 5 {
        270
    } else if i == 6 {
        330
    } else if i == 7 {
        390
    } else if i == 8 {
        470
    } else if i == 9 {
        560
    } else if i == 10 {
        680
    } else {
        820
    }
}

/// The standard E12 preferred values, in hundredths.
pub open spec fn spec_std_e12() -> Seq<u16> {
    Seq::new(12, |i: int| std_e12_at(i))
}

fn std_e12_lookup(i: usize) -> (r: u16)
    ensures
        r == std_e12_at(i as int),
{
    if i == 0 {
        100
    } else if i == 1 {
        120
    } else if i == 2 {
        150
    } else if i == 3 {
        180
    } else if i == 4 {
        220
    } else if i == 5 {
        270
    } else if i == 6 {
        330
    } else if i == 7 {
        390
    } else if i == 8 {
        470
    } else if i == 9 {
        560
    } else if i == 10 {
        680
    } else {
        820
    }
}

fn std_e12_values() -> (r: Vec<u16>)
    ensures
        r@ == spec_std_e12(),
{
    let mut v: Vec<u16> = Vec::new();
    for i in 0..12usize
        invariant
            v@.len() == i,
            forall|k: int| 0 <= k < i ==> v@[k] == std_e12_at(k),
    {
        v.push(std_e12_lookup(i));
    }
    proof {
        assert(v@ =~= spec_std_e12());
    }
    v
}

/// The standard E6 preferred values, in hundredths, element by position.
pub open spec fn std_e6_at(i: int) -> u16 {
    if i == 0 {
        100
    } else if i == 1 {
        150
    } else if i == 2 {
        220
    } else if i == 3 {
        330
    } else if i == 4 {
        470
    } else {
        680
    }
}

/// The standard E6 preferred values, in hundredths.
pub open spec fn spec_std_e6() -> Seq<u16> {
    Seq::new(6, |i: int| std_e6_at(i))
}

fn std_e6_lookup(i: usize) -> (r: u16)
    ensures
        r == std_e6_at(i as int),
{
    if i == 0 {
        100
    } else if i == 1 {
        150
    } else if i == 2 {
        220
    } else if i == 3 {
        330
    } else if i == 4 {
        470
    } else {
        680
    }
}

fn std_e6_values() -> (r: Vec<u16>)
    ensures
        r@ == spec_std_e6(),
{
    let mut v: Vec<u16> = Vec::new();
    for i in 0..6usize
        invariant
            v@.len() == i,
            forall|k: int| 0 <= k < i ==> v@[k] == std_e6_at(k),
    {
        v.push(std_e6_lookup(i));
    }
    proof {
        assert(v@ =~= spec_std_e6());
    }
    v
}


/// The computed base value table for a supported cardinality.
pub open spec fn spec_series(n: int) -> Seq<u16> {
    if n == 3 {
        spec_series_3()
    } else if n == 6 {
        spec_series_6()
    } else if n == 12 {
        spec_series_12()
    } else if n == 24 {
        spec_series_24()
    } else if n == 48 {
        spec_series_48()
    } else if n == 96 {
        spec_series_96()
    } else if n == 192 {
        spec_series_192()
    } else {
        Seq::empty()
    }
}

/// Expands a series cardinality into its full base value set.
///
/// A cardinality without a defined tolerance mapping is rejected; nothing
/// is ever generated from it.
pub fn expand(cardinality: usize) -> (r: Result<Vec<u16>, LibraryError>)
    ensures
        supported_cardinality(cardinality as int) <==> r is Ok,
        r matches Ok(v) ==> v@ == spec_series(cardinality as int),
        r matches Err(e) ==> e == LibraryError::UnsupportedSeries,
{
    if cardinality == 3 {
        Ok(series_3_values())
    } else if cardinality == 6 {
        Ok(series_6_values())
    } else if cardinality == 12 {
        Ok(series_12_values())
    } else if cardinality == 24 {
        Ok(series_24_values())
    } else if cardinality == 48 {
        Ok(series_48_values())
    } else if cardinality == 96 {
        Ok(series_96_values())
    } else if cardinality == 192 {
        Ok(series_192_values())
    } else {
        Err(LibraryError::UnsupportedSeries)
    }
}

proof fn lemma_pairwise_increasing(s: Seq<u16>, i: int, j: int)
    requires
        forall|k: int| 0 <= k < s.len() - 1 ==> #[trigger] s[k] < s[k + 1],
        0 <= i < j < s.len(),
    ensures
        s[i] < s[j],
    decreases j - i,
{
    if i < j - 1 {
        lemma_pairwise_increasing(s, i, j - 1);
    }
}

/// Every supported series expands to a well-formed value set: exactly
/// `cardinality` values, the first is 1.00, each lies in [1.00, 10.00),
/// and they are strictly increasing.
pub proof fn lemma_series_well_formed(n: int)
    requires
        supported_cardinality(n),
    ensures
        spec_series(n).len() == n,
        spec_series(n)[0] == 100,
        forall|i: int, j: int|
            0 <= i < j < spec_series(n).len() ==> spec_series(n)[i] < spec_series(n)[j],
        forall|i: int| 0 <= i < spec_series(n).len() ==> 100 <= #[trigger] spec_series(n)[i] < 1000,
{
    let s = spec_series(n);
    assert(forall|k: int| 0 <= k < s.len() - 1 ==> #[trigger] s[k] < s[k + 1]);
    assert forall|i: int, j: int| 0 <= i < j < s.len() implies s[i] < s[j] by {
        lemma_pairwise_increasing(s, i, j);
    }
}

/// The standard base value table for a series name, or empty for an
/// unknown name.  Names compare without regard to letter case.
pub open spec fn spec_std_series(name: Seq<char>) -> Seq<u16> {
    if name == "E96"@ || name == "e96"@ {
        spec_std_e96()
    } else if name == "E48"@ || name == "e48"@ {
        spec_std_e48()
    } else if name == "E24"@ || name == "e24"@ {
        spec_std_e24()
    } else if name == "E12"@ || name == "e12"@ {
        spec_std_e12()
    } else if name == "E6"@ || name == "e6"@ {
        spec_std_e6()
    } else {
        Seq::empty()
    }
}

/// The standard preferred values of a series named "E96" .. "E6"
/// (letter case does not matter), for the library descriptors.
pub fn get_e_series(series: &str) -> (r: Result<Vec<u16>, LibraryError>)
    ensures
        spec_std_series(series@).len() != 0 <==> r is Ok,
        r matches Ok(v) ==> v@ == spec_std_series(series@),
        r matches Err(e) ==> e == LibraryError::UnsupportedSeries,
{
    if str_eq(series, "E96") || str_eq(series, "e96") {
        Ok(std_e96_values())
    } else if str_eq(series, "E48") || str_eq(series, "e48") {
        Ok(std_e48_values())
    } else if str_eq(series, "E24") || str_eq(series, "e24") {
        Ok(std_e24_values())
    } else if str_eq(series, "E12") || str_eq(series, "e12") {
        Ok(std_e12_values())
    } else if str_eq(series, "E6") || str_eq(series, "e6") {
        Ok(std_e6_values())
    } else {
        Err(LibraryError::UnsupportedSeries)
    }
}

} // verus!
