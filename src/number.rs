use vstd::prelude::*;

verus! {

/// ASCII code of the digit `0`.
pub const NUMS_START: u8 = 48;

/// ASCII code of the letter `A`.
pub const LETTERS_START: u8 = 65;

/// Number of decimal digits of `n` (at least one).
pub open spec fn dec_len(n: nat) -> nat {
    if n < 10 {
        1
    } else if n < 100 {
        2
    } else if n < 1000 {
        3
    } else {
        4
    }
}

pub open spec fn pow_of(base: nat, e: nat) -> nat
    decreases e,
{
    if e == 0 {
        1
    } else {
        base * pow_of(base, (e - 1) as nat)
    }
}

/// The `i`-th character (from the left) of `n` written in `base` with `len` digits,
/// or zero past the last digit.
pub open spec fn digit_at(n: nat, base: nat, len: nat, i: int) -> int {
    if 0 <= i < len {
        ((n / pow_of(base, (len - 1 - i) as nat)) % base) as int
    } else {
        -1
    }
}

/// ASCII character of a single hex digit (upper case).
pub open spec fn hex_char(d: int) -> u8 {
    if d <= 9 {
        (NUMS_START + d) as u8
    } else {
        (LETTERS_START + d - 10) as u8
    }
}

/// Decimal digits of `n` left-aligned in four bytes, the rest zero.
pub open spec fn dec_bytes(n: nat) -> Seq<u8> {
    Seq::new(
        4,
        |i: int|
            if i < dec_len(n) {
                (NUMS_START + digit_at(n, 10, dec_len(n), i)) as u8
            } else {
                0u8
            },
    )
}

/// Number of hex digits of `n` (at least one).
pub open spec fn hex_len(n: nat) -> nat {
    if n <= 0xf {
        1
    } else if n <= 0xff {
        2
    } else if n <= 0xfff {
        3
    } else {
        4
    }
}

/// Hex digits of `n`: right-aligned after `0` padding when `put_zeros`,
/// otherwise left-aligned with zero bytes after them.
pub open spec fn hex_bytes(n: nat, put_zeros: bool) -> Seq<u8> {
    let len = hex_len(n);
    Seq::new(
        4,
        |i: int|
            if put_zeros {
                if i < 4 - len {
                    NUMS_START
                } else {
                    hex_char(digit_at(n, 16, len, i - (4 - len)))
                }
            } else {
                if i < len {
                    hex_char(digit_at(n, 16, len, i))
                } else {
                    0u8
                }
            },
    )
}

fn hex_digit(n: u32) -> (r: u8)
    requires
        n < 16,
    ensures
        r == hex_char(n as int),
{
    if n <= 9 {
        NUMS_START + n as u8
    } else {
        LETTERS_START + n as u8 - 10
    }
}

/// Writes `n` (at most four decimal digits) as ASCII into four bytes.
pub fn dec_to_bytes(n: u32) -> (r: [u8; 4])
    requires
        n <= 9999,
    ensures
        r@ == dec_bytes(n as nat),
{
    let mut arr: [u8; 4] = [0; 4];
    if n < 10 {
        arr[0] = NUMS_START + n as u8;
    } else if n < 100 {
        arr[0] = NUMS_START + (n / 10) as u8;
        arr[1] = NUMS_START + (n % 10) as u8;
    } else if n < 1000 {
        arr[0] = NUMS_START + (n / 100) as u8;
        arr[1] = NUMS_START + (n % 100 / 10) as u8;
        arr[2] = NUMS_START + (n % 10) as u8;
    } else {
        arr[0] = NUMS_START + (n / 1000) as u8;
        arr[1] = NUMS_START + (n % 1000 / 100) as u8;
        arr[2] = NUMS_START + (n % 100 / 10) as u8;
        arr[3] = NUMS_START + (n % 10) as u8;
    }
    proof {
        reveal_with_fuel(pow_of, 4);
        let m = n as nat;
        assert(pow_of(10, 0) == 1 && pow_of(10, 1) == 10 && pow_of(10, 2) == 100 && pow_of(10, 3)
            == 1000);
        assert(m / 1 == m);
        if m >= 10 && m < 100 {
            assert((m / 10) % 10 == m / 10) by (nonlinear_arith) requires m < 100;
        } else if m >= 100 && m < 1000 {
            assert((m / 100) % 10 == m / 100) by (nonlinear_arith) requires m < 1000;
            assert(m % 100 / 10 == (m / 10) % 10) by (nonlinear_arith) requires m >= 0;
        } else if m >= 1000 {
            assert((m / 1000) % 10 == m / 1000) by (nonlinear_arith) requires m <= 9999;
            assert(m % 1000 / 100 == (m / 100) % 10) by (nonlinear_arith) requires m >= 0;
            assert(m % 100 / 10 == (m / 10) % 10) by (nonlinear_arith) requires m >= 0;
        }
        assert(arr@ =~= dec_bytes(m));
    }
    arr
}

/// Writes `n` (at most four hex digits) as upper-case ASCII into four bytes.
pub fn hex_to_bytes(n: u32, put_zeros: bool) -> (r: [u8; 4])
    requires
        n <= 0xffff,
    ensures
        r@ == hex_bytes(n as nat, put_zeros),
{
    let mut arr: [u8; 4] = if put_zeros {
        [NUMS_START; 4]
    } else {
        [0; 4]
    };
    if n <= 0xf {
        if put_zeros {
            arr[3] = hex_digit(n);
        } else {
            arr[0] = hex_digit(n);
        }
    } else if n <= 0xff {
        if put_zeros {
            arr[2] = hex_digit(n / 16);
            arr[3] = hex_digit(n % 16);
        } else {
            arr[0] = hex_digit(n / 16);
            arr[1] = hex_digit(n % 16);
        }
    } else if n <= 0xfff {
        if put_zeros {
            arr[1] = hex_digit(n / 256);
            arr[2] = hex_digit(n % 256 / 16);
            arr[3] = hex_digit(n % 16);
        } else {
            arr[0] = hex_digit(n / 256);
            arr[1] = hex_digit(n % 256 / 16);
            arr[2] = hex_digit(n % 16);
        }
    } else {
        arr[0] = hex_digit(n / 4096);
        arr[1] = hex_digit(n % 4096 / 256);
        arr[2] = hex_digit(n % 256 / 16);
        arr[3] = hex_digit(n % 16);
    }
    proof {
        reveal_with_fuel(pow_of, 4);
        let m = n as nat;
        assert(pow_of(16, 0) == 1 && pow_of(16, 1) == 16 && pow_of(16, 2) == 256 && pow_of(16, 3)
            == 4096);
        assert(m / 1 == m);
        assert(m % 256 / 16 == (m / 16) % 16) by (nonlinear_arith) requires m >= 0;
        assert(m % 4096 / 256 == (m / 256) % 16) by (nonlinear_arith) requires m >= 0;
        if m > 0xf && m <= 0xff {
            assert((m / 16) % 16 == m / 16) by (nonlinear_arith) requires m <= 0xff;
        } else if m > 0xff && m <= 0xfff {
            assert((m / 256) % 16 == m / 256) by (nonlinear_arith) requires m <= 0xfff;
        } else if m > 0xfff {
            assert((m / 4096) % 16 == m / 4096) by (nonlinear_arith) requires m <= 0xffff;
        }
        assert(arr@ =~= hex_bytes(m, put_zeros));
    }
    arr
}

/// Conversion of small numbers into fixed-size ASCII byte strings, without allocation.
pub trait ToStrBytes: Sized {
    /// The numeric value that is written.
    spec fn num_value(&self) -> nat;

    /// Up to four ASCII chars of the value in decimal form.
    fn to_str_bytes(self) -> (r: [u8; 4])
        requires
            self.num_value() <= 9999,
        ensures
            r@ == dec_bytes(self.num_value()),
    ;

    /// Up to four ASCII chars of the value in hex form.
    fn to_hex_str_bytes(self, put_zeros: bool) -> (r: [u8; 4])
        requires
            self.num_value() <= 0xffff,
        ensures
            r@ == hex_bytes(self.num_value(), put_zeros),
    ;
}

impl ToStrBytes for u32 {
    open spec fn num_value(&self) -> nat {
        *self as nat
    }

    fn to_str_bytes(self) -> (r: [u8; 4]) {
        dec_to_bytes(self)
    }

    fn to_hex_str_bytes(self, put_zeros: bool) -> (r: [u8; 4]) {
        hex_to_bytes(self, put_zeros)
    }
}

impl ToStrBytes for i32 {
    /// A negative value stands for its two's complement bit pattern.
    open spec fn num_value(&self) -> nat {
        (*self as u32) as nat
    }

    fn to_str_bytes(self) -> (r: [u8; 4]) {
        dec_to_bytes(self as u32)
    }

    fn to_hex_str_bytes(self, put_zeros: bool) -> (r: [u8; 4]) {
        hex_to_bytes(self as u32, put_zeros)
    }
}

impl ToStrBytes for u16 {
    open spec fn num_value(&self) -> nat {
        *self as nat
    }

    fn to_str_bytes(self) -> (r: [u8; 4]) {
        dec_to_bytes(self as u32)
    }

    fn to_hex_str_bytes(self, put_zeros: bool) -> (r: [u8; 4]) {
        hex_to_bytes(self as u32, put_zeros)
    }
}

impl ToStrBytes for u8 {
    open spec fn num_value(&self) -> nat {
        *self as nat
    }

    fn to_str_bytes(self) -> (r: [u8; 4]) {
        dec_to_bytes(self as u32)
    }

    fn to_hex_str_bytes(self, put_zeros: bool) -> (r: [u8; 4]) {
        hex_to_bytes(self as u32, put_zeros)
    }
}

} // verus!
