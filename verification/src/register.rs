use vstd::prelude::*;

verus! {

/// Modular 8-bit addition: the value of `a + b` wrapped into a byte.
pub open spec fn byte_add(a: u8, b: u8) -> u8 {
    if a + b > 255 {
        (a + b - 256) as u8
    } else {
        (a + b) as u8
    }
}

/// Modular 8-bit subtraction: the value of `a - b` wrapped into a byte.
pub open spec fn byte_sub(a: u8, b: u8) -> u8 {
    if a >= b {
        (a - b) as u8
    } else {
        (a + 256 - b) as u8
    }
}

/// Modular 16-bit addition: the value of `a + b` wrapped into a word.
pub open spec fn word_add(a: u16, b: u16) -> u16 {
    if a + b > 65535 {
        (a + b - 65536) as u16
    } else {
        (a + b) as u16
    }
}

/// Modular 16-bit subtraction: the value of `a - b` wrapped into a word.
pub open spec fn word_sub(a: u16, b: u16) -> u16 {
    if a >= b {
        (a - b) as u16
    } else {
        (a + 65536 - b) as u16
    }
}

/// One 8-bit register. All arithmetic on it wraps modulo 256.
#[derive(Clone, Copy, Debug, PartialEq, Eq, Structural)]
pub struct Register8Bit {
    pub value: u8,
}

impl Register8Bit {
    /// A fresh register holding zero.
    pub fn new() -> (r: Self)
        ensures
            r.value == 0,
    {
        Register8Bit { value: 0 }
    }

    /// Current value of the register.
    pub fn value(&self) -> (r: u8)
        ensures
            r == self.value,
    {
        self.value
    }

    /// Write a new value into the register.
    pub fn write_value(&mut self, val: u8)
        ensures
            final(self).value == val,
    {
        self.value = val;
    }

    /// Add to the value, wrapping modulo 256, and return the new value.
    pub fn increment_value_by(&mut self, increment_by: u8) -> (r: u8)
        ensures
            final(self).value == byte_add(old(self).value, increment_by),
            r == final(self).value,
    {
        self.value = self.value.wrapping_add(increment_by);
        self.value
    }

    /// Subtract from the value, wrapping modulo 256, and return the new value.
    pub fn decrement_value_by(&mut self, decrement_by: u8) -> (r: u8)
        ensures
            final(self).value == byte_sub(old(self).value, decrement_by),
            r == final(self).value,
    {
        self.value = self.value.wrapping_sub(decrement_by);
        self.value
    }

    /// Reset the register to zero.
    pub fn reset(&mut self)
        ensures
            final(self).value == 0,
    {
        self.value = 0;
    }
}

/// One 16-bit register. All arithmetic on it wraps modulo 65536.
#[derive(Clone, Copy, Debug, PartialEq, Eq, Structural)]
pub struct Register16Bit {
    pub value: u16,
}

impl Register16Bit {
    /// A fresh register holding zero.
    pub fn new() -> (r: Self)
        ensures
            r.value == 0,
    {
        Register16Bit { value: 0 }
    }

    /// Current value of the register.
    pub fn value(&self) -> (r: u16)
        ensures
            r == self.value,
    {
        self.value
    }

    /// Write a new value into the register.
    pub fn write_value(&mut self, val: u16)
        ensures
            final(self).value == val,
    {
        self.value = val;
    }

    /// Add to the value, wrapping modulo 65536, and return the new value.
    pub fn increment_value_by(&mut self, increment_by: u16) -> (r: u16)
        ensures
            final(self).value == word_add(old(self).value, increment_by),
            r == final(self).value,
    {
        self.value = self.value.wrapping_add(increment_by);
        self.value
    }

    /// Subtract from the value, wrapping modulo 65536, and return the new value.
    pub fn decrement_value_by(&mut self, decrement_by: u16) -> (r: u16)
        ensures
            final(self).value == word_sub(old(self).value, decrement_by),
            r == final(self).value,
    {
        self.value = self.value.wrapping_sub(decrement_by);
        self.value
    }

    /// Reset the register to zero.
    pub fn reset(&mut self)
        ensures
            final(self).value == 0,
    {
        self.value = 0;
    }
}

} // verus!
