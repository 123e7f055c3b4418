//! HID Boot Protocol keyboard driver.
//!
//! Boot protocol report (8 bytes):
//!   [0] modifier keys (Ctrl, Shift, Alt, etc.)
//!   [1] reserved (always 0)
//!   [2..7] up to 6 keycodes
use vstd::prelude::*;

verus! {

/// Characters of the US keyboard layout for the usage IDs 0 to 56, no Shift held.
pub open spec fn normal_table() -> Seq<u8> {
    seq![
        0, 0, 0, 0, // no event, rollover, POST fail, undefined
        0x61, 0x62, 0x63, 0x64, 0x65, 0x66, 0x67, 0x68, 0x69, 0x6A, // a b c d e f g h i j
        0x6B, 0x6C, 0x6D, 0x6E, 0x6F, 0x70, 0x71, 0x72, 0x73, 0x74, // k l m n o p q r s t
        0x75, 0x76, 0x77, 0x78, 0x79, 0x7A, // u v w x y z
        0x31, 0x32, 0x33, 0x34, 0x35, 0x36, 0x37, 0x38, 0x39, 0x30, // 1 2 3 4 5 6 7 8 9 0
        0x0D, 0x1B, 0x08, 0x09, 0x20, // Enter Escape Backspace Tab Space
        0x2D, 0x3D, 0x5B, 0x5D, 0x5C, // - = [ ] \
        0, // non-US #
        0x3B, 0x27, 0x60, 0x2C, 0x2E, 0x2F, // ; ' ` , . /
    ]
}

/// Characters of the US keyboard layout for the usage IDs 0 to 56, Shift held.
pub open spec fn shifted_table() -> Seq<u8> {
    seq![
        0, 0, 0, 0, // no event, rollover, POST fail, undefined
        0x41, 0x42, 0x43, 0x44, 0x45, 0x46, 0x47, 0x48, 0x49, 0x4A, // A B C D E F G H I J
        0x4B, 0x4C, 0x4D, 0x4E, 0x4F, 0x50, 0x51, 0x52, 0x53, 0x54, // K L M N O P Q R S T
        0x55, 0x56, 0x57, 0x58, 0x59, 0x5A, // U V W X Y Z
        0x21, 0x40, 0x23, 0x24, 0x25, 0x5E, 0x26, 0x2A, 0x28, 0x29, // ! @ # $ % ^ & * ( )
        0x0D, 0x1B, 0x08, 0x09, 0x20, // Enter Escape Backspace Tab Space
        0x5F, 0x2B, 0x7B, 0x7D, 0x7C, // _ + { } |
        0, // non-US #
        0x3A, 0x22, 0x7E, 0x3C, 0x3E, 0x3F, // : " ~ < > ?
    ]
}

/// Whether the modifier byte has a Shift key (left or right) held.
pub open spec fn shift_held(modifier: u8) -> bool {
    modifier & 0x22 != 0
}

/// The ASCII character of a key, or 0 where the key has none.
pub open spec fn key_char(scancode: u8, modifier: u8) -> u8 {
    if scancode >= 57 {
        0
    } else if shift_held(modifier) {
        shifted_table()[scancode as int]
    } else {
        normal_table()[scancode as int]
    }
}

/// Translate a HID usage ID to ASCII (0 where there is none).
pub fn scancode_to_ascii(scancode: u8, modifier: u8) -> (r: u8)
    ensures
        r == key_char(scancode, modifier),
{
    let shift = (modifier & 0x22) != 0;
    let normal: [u8; 57] = [
        0, 0, 0, 0, // no event, rollover, POST fail, undefined
        0x61, 0x62, 0x63, 0x64, 0x65, 0x66, 0x67, 0x68, 0x69, 0x6A, // a b c d e f g h i j
        0x6B, 0x6C, 0x6D, 0x6E, 0x6F, 0x70, 0x71, 0x72, 0x73, 0x74, // k l m n o p q r s t
        0x75, 0x76, 0x77, 0x78, 0x79, 0x7A, // u v w x y z
        0x31, 0x32, 0x33, 0x34, 0x35, 0x36, 0x37, 0x38, 0x39, 0x30, // 1 2 3 4 5 6 7 8 9 0
        0x0D, 0x1B, 0x08, 0x09, 0x20, // Enter Escape Backspace Tab Space
        0x2D, 0x3D, 0x5B, 0x5D, 0x5C, // - = [ ] \
        0, // non-US #
        0x3B, 0x27, 0x60, 0x2C, 0x2E, 0x2F, // ; ' ` , . /
    ];
    let shifted: [u8; 57] = [
        0, 0, 0, 0, // no event, rollover, POST fail, undefined
        0x41, 0x42, 0x43, 0x44, 0x45, 0x46, 0x47, 0x48, 0x49, 0x4A, // A B C D E F G H I J
        0x4B, 0x4C, 0x4D, 0x4E, 0x4F, 0x50, 0x51, 0x52, 0x53, 0x54, // K L M N O P Q R S T
        0x55, 0x56, 0x57, 0x58, 0x59, 0x5A, // U V W X Y Z
        0x21, 0x40, 0x23, 0x24, 0x25, 0x5E, 0x26, 0x2A, 0x28, 0x29, // ! @ # $ % ^ & * ( )
        0x0D, 0x1B, 0x08, 0x09, 0x20, // Enter Escape Backspace Tab Space
        0x5F, 0x2B, 0x7B, 0x7D, 0x7C, // _ + { } |
        0, // non-US #
        0x3A, 0x22, 0x7E, 0x3C, 0x3E, 0x3F, // : " ~ < > ?
    ];
    let sc = scancode as usize;
    if sc >= 57 {
        return 0;
    }
    if shift {
        shifted[sc]
    } else {
        normal[sc]
    }
}

} // verus!

verus! {

/// Number of characters the type-ahead buffer can hold.
pub const KEY_BUFFER_CAPACITY: usize = 15;

/// A HID keyboard in boot protocol, with its type-ahead buffer.
pub struct Keyboard {
    dev_addr: u8,
    ep_num: u8,
    iface: u8,
    toggle: bool,
    prev_keys: [u8; 6],
    key_buf: [u8; 16],
    key_head: usize,
    key_tail: usize,
}

/// What a poll is told: that it starts, or how the report transfer it asked for ended.
pub enum PollEvent {
    /// The caller wants a character.
    Start,
    /// The interrupt IN transfer delivered this boot protocol report.
    Report([u8; 8]),
    /// The interrupt IN transfer failed.
    TransferFailed,
}

/// What a poll asks of its caller.
#[derive(Debug, Clone, Copy, PartialEq, Eq, Structural)]
pub enum PollAction {
    /// The poll is over and yields this character (0 for none).
    Return(u8),
    /// Read one report from the interrupt IN endpoint `ep_num` of device `dev_addr`,
    /// with the DATA1 PID when `data1` holds and DATA0 otherwise, then report the outcome.
    Transfer { dev_addr: u8, ep_num: u8, data1: bool },
}

/// The queue after `c` is offered to it: characters that find the buffer full are dropped.
pub open spec fn enqueue(q: Seq<u8>, c: u8) -> Seq<u8> {
    if q.len() < KEY_BUFFER_CAPACITY {
        q.push(c)
    } else {
        q
    }
}

/// The queue after the characters `cs` are offered to it in order.
pub open spec fn enqueue_all(q: Seq<u8>, cs: Seq<u8>) -> Seq<u8>
    decreases cs.len(),
{
    if cs.len() == 0 {
        q
    } else {
        enqueue(enqueue_all(q, cs.drop_last()), cs.last())
    }
}

/// Whether a key slot of a report names a key that is newly pressed: neither empty (0),
/// nor the rollover error (1), nor among the keys of the previous report.
pub open spec fn newly_pressed(key: u8, prev: Seq<u8>) -> bool {
    key != 0 && key != 1 && !prev.contains(key)
}

/// The characters typed by the key slots `keys` of a report, in slot order, given the
/// keys of the previous report and the modifier byte.
pub open spec fn typed_chars(keys: Seq<u8>, prev: Seq<u8>, modifier: u8) -> Seq<u8>
    decreases keys.len(),
{
    if keys.len() == 0 {
        seq![]
    } else {
        let rest = typed_chars(keys.drop_last(), prev, modifier);
        let k = keys.last();
        if newly_pressed(k, prev) && key_char(k, modifier) != 0 {
            rest.push(key_char(k, modifier))
        } else {
            rest
        }
    }
}

/// The key slots of a boot protocol report.
pub open spec fn report_keys(report: Seq<u8>) -> Seq<u8> {
    report.subrange(2, 8)
}

/// Keys that stay held from one report to the next type nothing: a report whose key
/// slots are all among the previous report's keys yields no character.
pub proof fn lemma_held_keys_type_once(keys: Seq<u8>, prev: Seq<u8>, modifier: u8)
    requires
        forall|i: int| 0 <= i < keys.len() ==> prev.contains(#[trigger] keys[i]),
    ensures
        typed_chars(keys, prev, modifier) == Seq::<u8>::empty(),
    decreases keys.len(),
{
    if keys.len() > 0 {
        assert(prev.contains(keys[keys.len() - 1]));
        lemma_held_keys_type_once(keys.drop_last(), prev, modifier);
    }
}

/// The empty slot (0) and the rollover error (1) never type a character.
pub proof fn lemma_no_event_keys_type_nothing(keys: Seq<u8>, prev: Seq<u8>, modifier: u8)
    requires
        forall|i: int| 0 <= i < keys.len() ==> #[trigger] keys[i] == 0 || keys[i] == 1,
    ensures
        typed_chars(keys, prev, modifier) == Seq::<u8>::empty(),
    decreases keys.len(),
{
    if keys.len() > 0 {
        assert(keys[keys.len() - 1] == 0 || keys[keys.len() - 1] == 1);
        lemma_no_event_keys_type_nothing(keys.drop_last(), prev, modifier);
    }
}

/// Offering characters to the type-ahead buffer never loses or reorders what it holds:
/// the old contents stay a prefix, the buffer never holds more than its capacity (when it
/// did not before), and nothing is dropped while there is room.
pub proof fn lemma_enqueue_keeps_order(q: Seq<u8>, cs: Seq<u8>)
    requires
        q.len() <= 15,
    ensures
        q.len() <= enqueue_all(q, cs).len() <= 15,
        enqueue_all(q, cs).subrange(0, q.len() as int) == q,
        q.len() + cs.len() <= 15 ==> enqueue_all(q, cs) == q + cs,
        q.len() + cs.len() >= 15 ==> enqueue_all(q, cs).len() == 15,
    decreases cs.len(),
{
    if cs.len() > 0 {
        lemma_enqueue_keeps_order(q, cs.drop_last());
        let p = enqueue_all(q, cs.drop_last());
        assert(enqueue_all(q, cs) == enqueue(p, cs.last()));
        if p.len() < KEY_BUFFER_CAPACITY {
            assert(p.push(cs.last()).subrange(0, q.len() as int) =~= p.subrange(0, q.len() as int));
        }
        if q.len() + cs.len() <= KEY_BUFFER_CAPACITY {
            assert(q + cs =~= (q + cs.drop_last()).push(cs.last()));
        }
    }
}

/// Without Shift the letter keys (usage IDs 4 to 29) type 'a' to 'z'; with Shift, 'A' to 'Z'.
pub proof fn lemma_letter_keys(scancode: u8, modifier: u8)
    requires
        4 <= scancode <= 29,
    ensures
        key_char(scancode, modifier) == if shift_held(modifier) { 0x41 + scancode - 4 } else { 0x61 + scancode - 4 },
{
    assert(forall|i: int| 4 <= i <= 29 ==> #[trigger] normal_table()[i] == 0x61 + i - 4);
    assert(forall|i: int| 4 <= i <= 29 ==> #[trigger] shifted_table()[i] == 0x41 + i - 4);
}

/// Without Shift the digit row (usage IDs 30 to 39) types '1' to '9' then '0'.
pub proof fn lemma_digit_keys(scancode: u8, modifier: u8)
    requires
        30 <= scancode <= 39,
        !shift_held(modifier),
    ensures
        key_char(scancode, modifier) == if scancode == 39 { 0x30 } else { 0x31 + scancode - 30 },
{
    assert(forall|i: int| 30 <= i <= 38 ==> #[trigger] normal_table()[i] == 0x31 + i - 30);
    assert(normal_table()[39] == 0x30);
}

/// With Shift the digit row types the US symbols: ! @ # $ % ^ & * ( ).
pub proof fn lemma_shifted_digit_keys(modifier: u8)
    requires
        shift_held(modifier),
    ensures
        key_char(30, modifier) == 0x21 && key_char(31, modifier) == 0x40 && key_char(32, modifier) == 0x23
            && key_char(33, modifier) == 0x24 && key_char(34, modifier) == 0x25 && key_char(35, modifier) == 0x5E
            && key_char(36, modifier) == 0x26 && key_char(37, modifier) == 0x2A && key_char(38, modifier) == 0x28
            && key_char(39, modifier) == 0x29,
{
}

/// Enter, Escape, Backspace, Tab and Space (usage IDs 40 to 44) type CR, ESC, BS, HT
/// and space, with or without Shift.
pub proof fn lemma_control_keys(modifier: u8)
    ensures
        key_char(40, modifier) == 0x0D && key_char(41, modifier) == 0x1B && key_char(42, modifier) == 0x08
            && key_char(43, modifier) == 0x09 && key_char(44, modifier) == 0x20,
{
}

/// The punctuation keys (usage IDs 45 to 56) type the US layout, without and with Shift:
/// - = [ ] \ ; ' ` , . / and _ + { } | : " ~ < > ?; the non-US # key (50) types nothing.
pub proof fn lemma_punctuation_keys(modifier: u8)
    ensures
        !shift_held(modifier) ==> key_char(45, modifier) == 0x2D && key_char(46, modifier) == 0x3D
            && key_char(47, modifier) == 0x5B && key_char(48, modifier) == 0x5D && key_char(49, modifier) == 0x5C
            && key_char(50, modifier) == 0 && key_char(51, modifier) == 0x3B && key_char(52, modifier) == 0x27
            && key_char(53, modifier) == 0x60 && key_char(54, modifier) == 0x2C && key_char(55, modifier) == 0x2E
            && key_char(56, modifier) == 0x2F,
        shift_held(modifier) ==> key_char(45, modifier) == 0x5F && key_char(46, modifier) == 0x2B
            && key_char(47, modifier) == 0x7B && key_char(48, modifier) == 0x7D && key_char(49, modifier) == 0x7C
            && key_char(50, modifier) == 0 && key_char(51, modifier) == 0x3A && key_char(52, modifier) == 0x22
            && key_char(53, modifier) == 0x7E && key_char(54, modifier) == 0x3C && key_char(55, modifier) == 0x3E
            && key_char(56, modifier) == 0x3F,
{
}

/// The reserved usage IDs 0 to 3 and every ID from 57 on type nothing; Shift is either
/// Shift key (modifier bits 1 and 5) and nothing else.
pub proof fn lemma_keys_without_characters(scancode: u8, modifier: u8)
    ensures
        scancode < 4 || scancode >= 57 ==> key_char(scancode, modifier) == 0,
        shift_held(modifier) == (modifier & 0x02 != 0 || modifier & 0x20 != 0),
{
    assert(shift_held(modifier) == (modifier & 0x02 != 0 || modifier & 0x20 != 0)) by (bit_vector);
}

/// Key slots type in slot order: the characters of two runs of slots are those of the
/// first run followed by those of the second.
pub proof fn lemma_typed_chars_in_order(a: Seq<u8>, b: Seq<u8>, prev: Seq<u8>, modifier: u8)
    ensures
        typed_chars(a + b, prev, modifier) == typed_chars(a, prev, modifier) + typed_chars(b, prev, modifier),
    decreases b.len(),
{
    if b.len() == 0 {
        assert(a + b =~= a);
    } else {
        assert((a + b).drop_last() =~= a + b.drop_last());
        assert((a + b).last() == b.last());
        lemma_typed_chars_in_order(a, b.drop_last(), prev, modifier);
    }
}

/// A report (byte 0 the modifiers, bytes 2 to 7 the key slots) with a single key `k` in
/// one slot and the others empty, after a report with no key held, types the character
/// of `k` under those modifiers, when it has one, and nothing otherwise.
pub proof fn lemma_single_key_report(report: Seq<u8>, slot: int, k: u8)
    requires
        report.len() == 8,
        2 <= slot < 8,
        k >= 2,
        report[slot] == k,
        forall|j: int| 2 <= j < 8 && j != slot ==> report[j] == 0,
    ensures
        typed_chars(report_keys(report), seq![0u8, 0u8, 0u8, 0u8, 0u8, 0u8], report[0])
            == if key_char(k, report[0]) != 0 { seq![key_char(k, report[0])] } else { Seq::<u8>::empty() },
{
    let keys = report_keys(report);
    let prev = seq![0u8, 0u8, 0u8, 0u8, 0u8, 0u8];
    let m = report[0];
    let before = keys.take(slot - 2);
    let after = keys.skip(slot - 1);
    assert(keys =~= before + seq![k] + after);
    assert(forall|j: int| 0 <= j < before.len() ==> #[trigger] before[j] == report[j + 2]);
    assert(forall|j: int| 0 <= j < after.len() ==> #[trigger] after[j] == report[slot + 1 + j]);
    lemma_no_event_keys_type_nothing(before, prev, m);
    lemma_no_event_keys_type_nothing(after, prev, m);
    lemma_typed_chars_in_order(before + seq![k], after, prev, m);
    lemma_typed_chars_in_order(before, seq![k], prev, m);
    assert(!prev.contains(k)) by {
        if prev.contains(k) {
            let j = choose|j: int| 0 <= j < prev.len() && prev[j] == k;
            assert(prev[j] == 0);
        }
    }
    assert(seq![k].drop_last() =~= Seq::<u8>::empty());
    assert(typed_chars(Seq::<u8>::empty(), prev, m) == Seq::<u8>::empty());
    let t = typed_chars(seq![k], prev, m);
    assert(t == if key_char(k, m) != 0 { Seq::<u8>::empty().push(key_char(k, m)) } else { Seq::<u8>::empty() });
    assert(Seq::<u8>::empty().push(key_char(k, m)) =~= seq![key_char(k, m)]);
    assert(Seq::<u8>::empty() + t =~= t);
    assert(t + Seq::<u8>::empty() =~= t);
}

impl Keyboard {
    #[verifier::type_invariant]
    spec fn inv(&self) -> bool {
        self.key_head < 16 && self.key_tail < 16
    }

    /// The characters waiting in the type-ahead buffer, oldest first.
    pub closed spec fn pending(&self) -> Seq<u8> {
        let len = (self.key_head + 16 - self.key_tail) % 16;
        Seq::new(len as nat, |j: int| self.key_buf@[(self.key_tail + j) % 16])
    }

    /// The key slots of the last report received.
    pub closed spec fn held_keys(&self) -> Seq<u8> {
        self.prev_keys@
    }

    /// The data toggle of the next report transfer (true: DATA1).
    pub closed spec fn spec_toggle(&self) -> bool {
        self.toggle
    }

    /// The device address of the keyboard.
    pub closed spec fn spec_dev_addr(&self) -> u8 {
        self.dev_addr
    }

    /// The interrupt IN endpoint of the keyboard.
    pub closed spec fn spec_ep_num(&self) -> u8 {
        self.ep_num
    }

    /// The interface number of the keyboard.
    pub closed spec fn spec_iface(&self) -> u8 {
        self.iface
    }

    proof fn lemma_pending_len(&self)
        requires
            self.inv(),
        ensures
            self.pending().len() <= KEY_BUFFER_CAPACITY,
            self.pending().len() == (self.key_head + 16 - self.key_tail) % 16,
    {
    }

    /// A keyboard at `dev_addr` with its interrupt IN endpoint `ep_num` on interface `iface`:
    /// nothing pending, no key held, DATA0 next.
    pub fn new(dev_addr: u8, ep_num: u8, iface: u8) -> (k: Self)
        ensures
            k.pending() == Seq::<u8>::empty(),
            k.held_keys() == seq![0u8, 0u8, 0u8, 0u8, 0u8, 0u8],
            !k.spec_toggle(),
            k.spec_dev_addr() == dev_addr,
            k.spec_ep_num() == ep_num,
            k.spec_iface() == iface,
    {
        let k = Keyboard {
            dev_addr,
            ep_num,
            iface,
            toggle: false,
            prev_keys: [0; 6],
            key_buf: [0; 16],
            key_head: 0,
            key_tail: 0,
        };
        assert(k.pending() =~= Seq::<u8>::empty());
        assert(k.held_keys() =~= seq![0u8, 0u8, 0u8, 0u8, 0u8, 0u8]);
        k
    }

    /// Offers a character to the type-ahead buffer; it is dropped when the buffer is full.
    fn push_key(&mut self, ch: u8)
        ensures
            final(self).pending() == enqueue(old(self).pending(), ch),
            final(self).held_keys() == old(self).held_keys(),
            final(self).toggle == old(self).toggle,
            final(self).dev_addr == old(self).dev_addr,
            final(self).ep_num == old(self).ep_num,
            final(self).iface == old(self).iface,
    {
        proof {
            use_type_invariant(&*self);
        }
        let h1 = self.key_head + 1;
        assert(h1 & 0xF == h1 % 16) by (bit_vector);
        let next = h1 & 0xF;
        if next != self.key_tail {
            let ghost q = self.pending();
            self.key_buf[self.key_head] = ch;
            self.key_head = next;
            assert(self.pending() =~= q.push(ch));
        }
    }

    /// Takes the oldest character out of the type-ahead buffer, if there is one.
    fn pop_key(&mut self) -> (r: Option<u8>)
        ensures
            old(self).pending().len() == 0 ==> r is None && final(self).pending() == old(self).pending(),
            old(self).pending().len() > 0 ==> r == Some(old(self).pending()[0])
                && final(self).pending() == old(self).pending().drop_first(),
            final(self).held_keys() == old(self).held_keys(),
            final(self).toggle == old(self).toggle,
            final(self).dev_addr == old(self).dev_addr,
            final(self).ep_num == old(self).ep_num,
            final(self).iface == old(self).iface,
    {
        proof {
            use_type_invariant(&*self);
        }
        if self.key_head != self.key_tail {
            let ghost q = self.pending();
            let ch = self.key_buf[self.key_tail];
            let t1 = self.key_tail + 1;
            assert(t1 & 0xF == t1 % 16) by (bit_vector);
            self.key_tail = t1 & 0xF;
            assert(self.pending() =~= q.drop_first());
            Some(ch)
        } else {
            None
        }
    }

    /// Whether `key` is among the keys of the last report.
    fn was_held(&self, key: u8) -> (r: bool)
        ensures
            r == self.held_keys().contains(key),
    {
        let mut j: usize = 0;
        while j < 6
            invariant
                j <= 6,
                forall|m: int| 0 <= m < j ==> self.prev_keys@[m] != key,
            decreases 6 - j,
        {
            if self.prev_keys[j] == key {
                assert(self.held_keys()[j as int] == key);
                return true;
            }
            j += 1;
        }
        false
    }

    /// Takes in a boot protocol report: offers the characters of the newly pressed keys
    /// to the type-ahead buffer and remembers the report's keys.
    fn take_report(&mut self, report: &[u8; 8])
        ensures
            final(self).pending() == enqueue_all(
                old(self).pending(),
                typed_chars(report_keys(report@), old(self).held_keys(), report@[0]),
            ),
            final(self).held_keys() == report_keys(report@),
            final(self).toggle == old(self).toggle,
            final(self).dev_addr == old(self).dev_addr,
            final(self).ep_num == old(self).ep_num,
            final(self).iface == old(self).iface,
    {
        let modifier = report[0];
        let ghost q0 = self.pending();
        let ghost prev = self.held_keys();
        let ghost keys = report_keys(report@);
        let mut i: usize = 2;
        while i < 8
            invariant
                2 <= i <= 8,
                keys == report_keys(report@),
                modifier == report@[0],
                self.held_keys() == prev,
                self.pending() == enqueue_all(q0, typed_chars(keys.take(i - 2), prev, modifier)),
                self.toggle == old(self).toggle,
                self.dev_addr == old(self).dev_addr,
                self.ep_num == old(self).ep_num,
                self.iface == old(self).iface,
            decreases 8 - i,
        {
            let key = report[i];
            let ghost before = typed_chars(keys.take(i - 2), prev, modifier);
            assert(keys.take(i - 1).drop_last() =~= keys.take(i - 2));
            assert(keys.take(i - 1).last() == key);
            if key != 0 && key != 1 {
                let was_pressed = self.was_held(key);
                if !was_pressed {
                    let ascii = scancode_to_ascii(key, modifier);
                    if ascii != 0 {
                        self.push_key(ascii);
                        assert(before.push(ascii).drop_last() =~= before);
                    }
                }
            }
            i += 1;
        }
        assert(keys.take(6) =~= keys);
        let mut j: usize = 0;
        while j < 6
            invariant
                j <= 6,
                forall|m: int| 0 <= m < j ==> self.prev_keys@[m] == report@[m + 2],
                self.pending() == enqueue_all(q0, typed_chars(keys, prev, modifier)),
                keys == report_keys(report@),
                modifier == report@[0],
                self.toggle == old(self).toggle,
                self.dev_addr == old(self).dev_addr,
                self.ep_num == old(self).ep_num,
                self.iface == old(self).iface,
            decreases 6 - j,
        {
            proof {
                use_type_invariant(&*self);
            }
            self.prev_keys[j] = report[j + 2];
            j += 1;
        }
        assert(self.held_keys() =~= keys);
    }

    /// One step of polling the keyboard for a character.
    ///
    /// On `Start`, a buffered character is returned at once; with none buffered the poll
    /// asks for a report transfer with the current data toggle. On `Report`, the toggle
    /// flips, the newly pressed keys are typed into the buffer and the oldest buffered
    /// character (or 0) is returned. On `TransferFailed`, 0 is returned and nothing changes.
    pub fn poll(&mut self, event: PollEvent) -> (r: PollAction)
        ensures
            final(self).spec_dev_addr() == old(self).spec_dev_addr(),
            final(self).spec_ep_num() == old(self).spec_ep_num(),
            final(self).spec_iface() == old(self).spec_iface(),
            final(self).pending().len() <= KEY_BUFFER_CAPACITY,
            match event {
                PollEvent::Start => if old(self).pending().len() > 0 {
                    &&& r == PollAction::Return(old(self).pending()[0])
                    &&& final(self).pending() == old(self).pending().drop_first()
                    &&& final(self).held_keys() == old(self).held_keys()
                    &&& final(self).spec_toggle() == old(self).spec_toggle()
                } else {
                    &&& r == PollAction::Transfer {
                        dev_addr: old(self).spec_dev_addr(),
                        ep_num: old(self).spec_ep_num(),
                        data1: old(self).spec_toggle(),
                    }
                    &&& final(self).pending() == old(self).pending()
                    &&& final(self).held_keys() == old(self).held_keys()
                    &&& final(self).spec_toggle() == old(self).spec_toggle()
                },
                PollEvent::Report(report) => {
                    let q = enqueue_all(
                        old(self).pending(),
                        typed_chars(report_keys(report@), old(self).held_keys(), report@[0]),
                    );
                    &&& final(self).spec_toggle() == !old(self).spec_toggle()
                    &&& final(self).held_keys() == report_keys(report@)
                    &&& if q.len() > 0 {
                        r == PollAction::Return(q[0]) && final(self).pending() == q.drop_first()
                    } else {
                        r == PollAction::Return(0) && final(self).pending() == q
                    }
                },
                PollEvent::TransferFailed => {
                    &&& r == PollAction::Return(0)
                    &&& final(self).pending() == old(self).pending()
                    &&& final(self).held_keys() == old(self).held_keys()
                    &&& final(self).spec_toggle() == old(self).spec_toggle()
                },
            },
    {
        proof {
            use_type_invariant(&*self);
            self.lemma_pending_len();
        }
        let r = match event {
            PollEvent::Start => {
                match self.pop_key() {
                    Some(ch) => PollAction::Return(ch),
                    None => PollAction::Transfer {
                        dev_addr: self.dev_addr,
                        ep_num: self.ep_num,
                        data1: self.toggle,
                    },
                }
            },
            PollEvent::Report(report) => {
                self.toggle = !self.toggle;
                self.take_report(&report);
                match self.pop_key() {
                    Some(ch) => PollAction::Return(ch),
                    None => PollAction::Return(0),
                }
            },
            PollEvent::TransferFailed => PollAction::Return(0),
        };
        proof {
            use_type_invariant(&*self);
            self.lemma_pending_len();
        }
        r
    }
}

} // verus!
