//! What a successful assembly gives back.

use vstd::prelude::*;

verus! {

/// The machine code that one assembly produced. The bytes are owned by the
/// host: nothing in this value lies in memory of the engine.
#[derive(Clone, Eq, PartialEq, Ord, PartialOrd, Hash, Debug)]
pub struct KeystoneOutput {
    /// How many bytes the engine reported.
    pub size: u32,
    /// How many statements the engine processed.
    pub stat_count: u32,
    /// The encoded instructions.
    pub bytes: Vec<u8>,
}

/// A [`KeystoneOutput`] as a mathematical value.
pub struct OutputView {
    /// How many bytes the engine reported.
    pub size: u32,
    /// How many statements the engine processed.
    pub stat_count: u32,
    /// The encoded instructions.
    pub bytes: Seq<u8>,
}

impl View for KeystoneOutput {
    type V = OutputView;

    open spec fn view(&self) -> OutputView {
        OutputView { size: self.size, stat_count: self.stat_count, bytes: self.bytes@ }
    }
}

/// The lower-case hexadecimal digit for a value below 16.
pub open spec fn hex_digit(nibble: int) -> char {
    "0123456789abcdef"@[nibble]
}

/// `bytes` in hexadecimal: two lower-case digits for each byte, the high
/// half first, and nothing between them.
pub open spec fn hex(bytes: Seq<u8>) -> Seq<char> {
    Seq::new(
        2 * bytes.len(),
        |i: int|
            if i % 2 == 0 {
                hex_digit(bytes[i / 2] as int / 16)
            } else {
                hex_digit(bytes[i / 2] as int % 16)
            },
    )
}

impl KeystoneOutput {
    /// The reported size is the number of bytes held.
    pub open spec fn wf(&self) -> bool {
        self.size as int == self.bytes@.len()
    }

    /// The encoded instructions as one hexadecimal string: two lower-case
    /// digits for each byte, without separators.
    pub fn to_hex(&self) -> (text: String)
        ensures
            text@ == hex(self.bytes@),
    {
        let digits = "0123456789abcdef";
        proof {
            reveal_strlit("0123456789abcdef");
        }
        let mut text = String::new();
        let mut i: usize = 0;
        while i < self.bytes.len()
            invariant
                i <= self.bytes.len(),
                text@ == hex(self.bytes@.take(i as int)),
                digits@ == "0123456789abcdef"@,
                digits@.len() == 16,
                digits.is_ascii(),
            decreases self.bytes.len() - i,
        {
            let byte: u8 = self.bytes[i];
            let high: usize = (byte / 16) as usize;
            let low: usize = (byte % 16) as usize;
            let ghost before = text@;
            text.append(digits.substring_ascii(high, high + 1));
            text.append(digits.substring_ascii(low, low + 1));
            proof {
                let done = self.bytes@.take(i as int);
                let next = self.bytes@.take(i as int + 1);
                assert(text@ == before.push(hex_digit(high as int)).push(hex_digit(low as int)));
                assert(text@ =~= hex(next)) by {
                    assert forall|k: int| 0 <= k < 2 * next.len() implies text@[k] == hex(next)[k] by {
                        if k < 2 * i {
                            assert(next[k / 2] == done[k / 2]);
                            assert(text@[k] == hex(done)[k]);
                        }
                    }
                }
            }
            i += 1;
        }
        proof {
            assert(self.bytes@.take(i as int) =~= self.bytes@);
        }
        text
    }
}

} // verus!
