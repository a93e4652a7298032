//! The descriptive table of the opcodes: mnemonics, operands, declared
//! lengths and cycle counts. It serves tracing only and has no part in what
//! an instruction does.

use vstd::prelude::*;
use crate::cpu::wrap16;
use crate::gameboy::{Gameboy, GameboyView};
use crate::instructions::PREFIX;
use std::collections::HashMap;

verus! {

broadcast use vstd::std_specs::hash::group_hash_axioms;

/// How an operation touches each of the four flags, in words.
#[derive(Debug, Clone)]
pub struct FlagInformation {
    pub z: String,
    pub n: String,
    pub h: String,
    pub c: String,
}

/// The name of an operand and whether it is used as it stands or as an
/// address.
#[derive(Debug, Clone)]
pub struct OperandInformation {
    pub name: String,
    pub immediate: bool,
}

/// The description of one opcode.
#[derive(Debug, Clone)]
pub struct Opcode {
    pub operands: Vec<OperandInformation>,
    pub mnemonic: String,
    pub bytes: u8,
    pub immediate: bool,
    pub cycles: Vec<u8>,
    pub flags: FlagInformation,
}

/// The descriptions of the plain and of the prefixed opcodes, each under
/// its opcode byte.
pub struct OpcodeInfo {
    pub unprefixed: HashMap<u8, Opcode>,
    pub cbprefixed: HashMap<u8, Opcode>,
}

/// The character code of a hexadecimal digit, in upper case.
pub open spec fn hex_digit(value: int) -> u8 {
    if value < 10 {
        (0x30 + value) as u8
    } else {
        (0x41 + value - 10) as u8
    }
}

/// The value of the hexadecimal digit with the given character code, if it
/// is one in upper case.
pub open spec fn hex_value(digit: u8) -> Option<u8> {
    if 0x30 <= digit <= 0x39 {
        Some((digit - 0x30) as u8)
    } else if 0x41 <= digit <= 0x46 {
        Some((digit - 0x41 + 10) as u8)
    } else {
        None
    }
}

/// The key under which the table names an opcode: `0x` and the two
/// hexadecimal digits of the byte, in upper case.
pub open spec fn opcode_key(byte: u8) -> Seq<u8> {
    seq![0x30u8, 0x78u8, hex_digit(byte as int / 16), hex_digit(byte as int % 16)]
}

/// The opcode byte that a key names, if the key is well formed.
pub open spec fn parsed_key(key: Seq<u8>) -> Option<u8> {
    if key.len() == 4 && key[0] == 0x30 && key[1] == 0x78 {
        match (hex_value(key[2]), hex_value(key[3])) {
            (Some(high), Some(low)) => Some((high * 16 + low) as u8),
            _ => None,
        }
    } else {
        None
    }
}

/// The key of a byte names that byte, and a key that names a byte is the
/// key of that byte.
pub proof fn lemma_key_round_trip(byte: u8, key: Seq<u8>)
    ensures
        parsed_key(opcode_key(byte)) == Some(byte),
        parsed_key(key) == Some(byte) ==> key == opcode_key(byte),
{
    if parsed_key(key) == Some(byte) {
        assert(key =~= opcode_key(byte));
    }
}

/// Reads one hexadecimal digit in upper case.
pub fn parse_hex_digit(digit: u8) -> (value: Option<u8>)
    ensures
        value == hex_value(digit),
{
    if 0x30 <= digit && digit <= 0x39 {
        Some(digit - 0x30)
    } else if 0x41 <= digit && digit <= 0x46 {
        Some(digit - 0x41 + 10)
    } else {
        None
    }
}

/// Reads the opcode byte that a key names.
pub fn parse_key(key: &[u8]) -> (byte: Option<u8>)
    ensures
        byte == parsed_key(key@),
{
    if key.len() != 4 || key[0] != 0x30 || key[1] != 0x78 {
        return None;
    }
    match (parse_hex_digit(key[2]), parse_hex_digit(key[3])) {
        (Some(high), Some(low)) => Some(high * 16 + low),
        _ => None,
    }
}

/// Writes the key of an opcode byte.
pub fn format_key(byte: u8) -> (key: Vec<u8>)
    ensures
        key@ == opcode_key(byte),
{
    let high = byte / 16;
    let low = byte % 16;
    let mut key: Vec<u8> = Vec::new();
    key.push(0x30);
    key.push(0x78);
    key.push(if high < 10 { 0x30 + high } else { 0x41 + high - 10 });
    key.push(if low < 10 { 0x30 + low } else { 0x41 + low - 10 });
    assert(key@ =~= opcode_key(byte));
    key
}

/// The opcode byte at the program counter and the table that it belongs
/// to: after the prefix byte, the byte that follows in the prefixed table.
pub open spec fn next_opcode(s: GameboyView) -> (bool, u8) {
    let opcode = s.read_byte(s.pc());
    if opcode == PREFIX {
        (true, s.read_byte(wrap16(s.pc() + 1)))
    } else {
        (false, opcode)
    }
}

impl OpcodeInfo {
    /// The descriptions of one of the two tables.
    pub open spec fn table(self, prefixed: bool) -> Map<u8, Opcode> {
        if prefixed {
            self.cbprefixed@
        } else {
            self.unprefixed@
        }
    }

    /// A table that describes no opcode.
    pub fn new() -> (info: OpcodeInfo)
        ensures
            info.table(false) == Map::<u8, Opcode>::empty(),
            info.table(true) == Map::<u8, Opcode>::empty(),
    {
        OpcodeInfo { unprefixed: HashMap::new(), cbprefixed: HashMap::new() }
    }

    /// Files a description under the byte that its key names, in place of
    /// one that was there. A key that names no byte is refused, and the
    /// table stays as it was.
    pub fn insert(&mut self, prefixed: bool, key: &[u8], opcode: Opcode) -> (accepted: bool)
        ensures
            accepted == parsed_key(key@) is Some,
            final(self).table(!prefixed) == old(self).table(!prefixed),
            final(self).table(prefixed) == match parsed_key(key@) {
                Some(byte) => old(self).table(prefixed).insert(byte, opcode),
                None => old(self).table(prefixed),
            },
    {
        match parse_key(key) {
            Some(byte) => {
                if prefixed {
                    self.cbprefixed.insert(byte, opcode);
                } else {
                    self.unprefixed.insert(byte, opcode);
                }
                true
            },
            None => false,
        }
    }

    /// The description of an opcode, if the table has one.
    pub fn lookup(&self, prefixed: bool, byte: u8) -> (opcode: Option<&Opcode>)
        ensures
            match opcode {
                Some(found) => self.table(prefixed).contains_key(byte) && *found == self.table(
                    prefixed,
                )[byte],
                None => !self.table(prefixed).contains_key(byte),
            },
    {
        if prefixed {
            self.cbprefixed.get(&byte)
        } else {
            self.unprefixed.get(&byte)
        }
    }

    /// The description of the instruction at the program counter, if the
    /// table has one.
    pub fn describe_next(&self, gameboy: &Gameboy) -> (opcode: Option<&Opcode>)
        ensures
            match opcode {
                Some(found) => self.table(next_opcode(gameboy@).0).contains_key(
                    next_opcode(gameboy@).1,
                ) && *found == self.table(next_opcode(gameboy@).0)[next_opcode(gameboy@).1],
                None => !self.table(next_opcode(gameboy@).0).contains_key(next_opcode(gameboy@).1),
            },
    {
        let address = gameboy.cpu.registers.pc;
        let instruction_byte = gameboy.read_byte(address);
        if instruction_byte == PREFIX {
            self.lookup(true, gameboy.read_byte(address.wrapping_add(1)))
        } else {
            self.lookup(false, instruction_byte)
        }
    }
}

} // verus!
