//! The 6821 peripheral interface adapter: the PET keyboard scanner and
//! the 60 Hz frame-interrupt source.
//!
//! Port A's output register selects a keyboard row (low nibble); reading
//! port B returns a column mask where a 0 bit marks a pressed key in that
//! row. A free-running cycle counter raises the port B line-1 interrupt
//! every 16666 cycles. An optional auto-type queue presses and releases
//! queued keys with a fixed delay between transitions.

use vstd::prelude::*;

verus! {

/// The three phases of the auto-type machine.
#[derive(Clone, Copy, PartialEq, Eq, Structural, Debug)]
pub enum AutoTypeState {
    Idle,
    Pressing,
    Releasing,
}

/// 6821 state.
pub struct Pia6821 {
    pub ddra: u8,
    pub ora: u8,
    pub cra: u8,
    pub ddrb: u8,
    pub orb: u8,
    pub crb: u8,
    /// 10 rows of 8 columns, row-major: entry `row * 8 + col`.
    pub keyboard_matrix: Vec<bool>,
    pub irqa1: bool,
    pub irqa2: bool,
    pub irqb1: bool,
    pub irqb2: bool,
    pub cycle_count: u32,
    pub auto_type_queue: Vec<(usize, usize)>,
    pub auto_type_delay: u32,
    pub auto_type_timer: u32,
    pub auto_type_state: AutoTypeState,
}

/// The adapter's state as a plain mathematical value.
pub struct PiaState {
    pub ddra: u8,
    pub ora: u8,
    pub cra: u8,
    pub ddrb: u8,
    pub orb: u8,
    pub crb: u8,
    pub matrix: Seq<bool>,
    pub irqa1: bool,
    pub irqa2: bool,
    pub irqb1: bool,
    pub irqb2: bool,
    pub cycle_count: u32,
    pub queue: Seq<(usize, usize)>,
    pub delay: u32,
    pub timer: u32,
    pub state: AutoTypeState,
}

impl View for Pia6821 {
    type V = PiaState;

    open spec fn view(&self) -> PiaState {
        PiaState {
            ddra: self.ddra,
            ora: self.ora,
            cra: self.cra,
            ddrb: self.ddrb,
            orb: self.orb,
            crb: self.crb,
            matrix: self.keyboard_matrix@,
            irqa1: self.irqa1,
            irqa2: self.irqa2,
            irqb1: self.irqb1,
            irqb2: self.irqb2,
            cycle_count: self.cycle_count,
            queue: self.auto_type_queue@,
            delay: self.auto_type_delay,
            timer: self.auto_type_timer,
            state: self.auto_type_state,
        }
    }
}

/// The power-on state: all registers clear, no key pressed, the
/// auto-type machine idle with a 50000-cycle delay.
pub open spec fn pia_init() -> PiaState {
    PiaState {
        ddra: 0,
        ora: 0,
        cra: 0,
        ddrb: 0,
        orb: 0,
        crb: 0,
        matrix: Seq::new(80, |i: int| false),
        irqa1: false,
        irqa2: false,
        irqb1: false,
        irqb2: false,
        cycle_count: 0,
        queue: Seq::empty(),
        delay: 50000,
        timer: 0,
        state: AutoTypeState::Idle,
    }
}

/// A key-matrix update; out-of-range indices change nothing.
pub open spec fn set_key_spec(matrix: Seq<bool>, row: usize, col: usize, pressed: bool) -> Seq<
    bool,
> {
    if row < 10 && col < 8 {
        matrix.update(row * 8 + col, pressed)
    } else {
        matrix
    }
}

/// The column mask the keyboard scanner returns for the row selected by
/// ORA's low nibble: every bit starts at 1 and each pressed key in the
/// row clears its column's bit. Row values 10 to 15 select no row.
pub open spec fn scan_spec(matrix: Seq<bool>, ora: u8) -> u8 {
    let row = (ora & 0x0F) as int;
    if row < 10 {
        let m0: u8 = 0xFF;
        let m1: u8 = if matrix[row * 8] {
            m0 & !0x01
        } else {
            m0
        };
        let m2: u8 = if matrix[row * 8 + 1] {
            m1 & !0x02
        } else {
            m1
        };
        let m3: u8 = if matrix[row * 8 + 2] {
            m2 & !0x04
        } else {
            m2
        };
        let m4: u8 = if matrix[row * 8 + 3] {
            m3 & !0x08
        } else {
            m3
        };
        let m5: u8 = if matrix[row * 8 + 4] {
            m4 & !0x10
        } else {
            m4
        };
        let m6: u8 = if matrix[row * 8 + 5] {
            m5 & !0x20
        } else {
            m5
        };
        let m7: u8 = if matrix[row * 8 + 6] {
            m6 & !0x40
        } else {
            m6
        };
        let m8: u8 = if matrix[row * 8 + 7] {
            m7 & !0x80
        } else {
            m7
        };
        m8
    } else {
        0xFF
    }
}

/// The byte a register read returns. Register 0 is ORA or DDRA as CRA
/// bit 2 directs (unwired port A inputs read high); register 1 is CRA
/// with the two port A interrupt latches in its top bits; registers 2
/// and 3 mirror those for port B, where the input lines are the keyboard
/// columns.
pub open spec fn pia_read_val(p: PiaState, reg: u8) -> u8 {
    if reg == 0 {
        if p.cra & 0x04 != 0 {
            (p.ora & p.ddra) | (0xF0 & !p.ddra)
        } else {
            p.ddra
        }
    } else if reg == 1 {
        (p.cra & 0x3F) | (if p.irqa1 {
            0x80u8
        } else {
            0u8
        }) | (if p.irqa2 {
            0x40u8
        } else {
            0u8
        })
    } else if reg == 2 {
        if p.crb & 0x04 != 0 {
            (p.orb & p.ddrb) | (scan_spec(p.matrix, p.ora) & !p.ddrb)
        } else {
            p.ddrb
        }
    } else if reg == 3 {
        (p.crb & 0x3F) | (if p.irqb1 {
            0x80u8
        } else {
            0u8
        }) | (if p.irqb2 {
            0x40u8
        } else {
            0u8
        })
    } else {
        0xFF
    }
}

/// A register read's side effect: reading CRA clears both port A
/// latches; reading port B data clears the port B line-1 latch.
pub open spec fn pia_read_next(p: PiaState, reg: u8) -> PiaState {
    if reg == 1 {
        PiaState { irqa1: false, irqa2: false, ..p }
    } else if reg == 2 && p.crb & 0x04 != 0 {
        PiaState { irqb1: false, ..p }
    } else {
        p
    }
}

/// Effect of a register write: data or direction register as the control
/// register's bit 2 directs.
pub open spec fn pia_write_spec(p: PiaState, reg: u8, val: u8) -> PiaState {
    if reg == 0 {
        if p.cra & 0x04 != 0 {
            PiaState { ora: val, ..p }
        } else {
            PiaState { ddra: val, ..p }
        }
    } else if reg == 1 {
        PiaState { cra: val, ..p }
    } else if reg == 2 {
        if p.crb & 0x04 != 0 {
            PiaState { orb: val, ..p }
        } else {
            PiaState { ddrb: val, ..p }
        }
    } else if reg == 3 {
        PiaState { crb: val, ..p }
    } else {
        p
    }
}

/// The aggregate interrupt line: a latched line-1 interrupt on either
/// port, enabled by its control register's bit 0.
pub open spec fn pia_irq_spec(p: PiaState) -> bool {
    (p.cra & 0x01 != 0 && p.irqa1) || (p.crb & 0x01 != 0 && p.irqb1)
}

/// Effect of advancing by `cycles` cycles: the frame counter raises the
/// port B line-1 latch each time it reaches 16666; a non-empty auto-type
/// queue advances its press/release machine once its delay elapses,
/// releasing the current key, then popping it and pressing the next.
pub open spec fn pia_tick_spec(p: PiaState, cycles: u32) -> PiaState {
    let count1 = (p.cycle_count + cycles) as u32;
    let count = if count1 >= 16666 {
        (count1 - 16666) as u32
    } else {
        count1
    };
    let b1 = if count1 >= 16666 {
        true
    } else {
        p.irqb1
    };
    let p1 = PiaState { cycle_count: count, irqb1: b1, ..p };
    if p1.queue.len() > 0 {
        let t1 = (p1.timer + cycles) as u32;
        if t1 >= p1.delay {
            let p2 = PiaState { timer: 0, ..p1 };
            if p2.state == AutoTypeState::Pressing {
                let key = p2.queue[p2.queue.len() - 1];
                PiaState {
                    matrix: set_key_spec(p2.matrix, key.0, key.1, false),
                    state: AutoTypeState::Releasing,
                    ..p2
                }
            } else if p2.state == AutoTypeState::Releasing {
                let q2 = p2.queue.drop_last();
                if q2.len() > 0 {
                    let key = q2[q2.len() - 1];
                    PiaState {
                        queue: q2,
                        matrix: set_key_spec(p2.matrix, key.0, key.1, true),
                        state: AutoTypeState::Pressing,
                        ..p2
                    }
                } else {
                    PiaState { queue: q2, state: AutoTypeState::Idle, ..p2 }
                }
            } else {
                p2
            }
        } else {
            PiaState { timer: t1, ..p1 }
        }
    } else {
        p1
    }
}

/// Effect of queueing keystrokes: the queue is replaced, the delay timer
/// restarts, and with a non-empty queue its last entry is pressed first.
pub open spec fn pia_auto_type_spec(p: PiaState, keys: Seq<(usize, usize)>) -> PiaState {
    let p1 = PiaState { queue: keys, timer: 0, ..p };
    if keys.len() > 0 {
        let key = keys[keys.len() - 1];
        PiaState {
            matrix: set_key_spec(p1.matrix, key.0, key.1, true),
            state: AutoTypeState::Pressing,
            ..p1
        }
    } else {
        p1
    }
}

impl Pia6821 {
    /// Well-formedness: the key matrix holds its 10 by 8 entries.
    pub open spec fn wf(&self) -> bool {
        self.keyboard_matrix@.len() == 80
    }

    /// The adapter in its power-on state.
    pub fn new() -> (r: Pia6821)
        ensures
            r.wf(),
            r@ == pia_init(),
    {
        let matrix: Vec<bool> = vec![false; 80];
        let queue: Vec<(usize, usize)> = Vec::new();
        proof {
            assert(matrix@ =~= Seq::new(80, |i: int| false));
            assert(queue@ =~= Seq::<(usize, usize)>::empty());
        }
        Pia6821 {
            ddra: 0,
            ora: 0,
            cra: 0,
            ddrb: 0,
            orb: 0,
            crb: 0,
            keyboard_matrix: matrix,
            irqa1: false,
            irqa2: false,
            irqb1: false,
            irqb2: false,
            cycle_count: 0,
            auto_type_queue: queue,
            auto_type_delay: 50000,
            auto_type_timer: 0,
            auto_type_state: AutoTypeState::Idle,
        }
    }

    /// Presses or releases one key; out-of-range indices are ignored.
    pub fn set_key(&mut self, row: usize, col: usize, pressed: bool)
        requires
            old(self).wf(),
        ensures
            final(self).wf(),
            final(self)@ == (PiaState {
                matrix: set_key_spec(old(self)@.matrix, row, col, pressed),
                ..old(self)@
            }),
    {
        if row < 10 && col < 8 {
            self.keyboard_matrix[row * 8 + col] = pressed;
        }
    }

    /// Scans the row selected by ORA's low nibble into a column mask:
    /// a 0 bit marks a pressed key.
    fn scan_keyboard(&self) -> (r: u8)
        requires
            self.wf(),
        ensures
            r == scan_spec(self@.matrix, self@.ora),
    {
        let row: usize = (self.ora & 0x0F) as usize;
        if row < 10 {
            let m0: u8 = 0xFF;
            let m1: u8 = if self.keyboard_matrix[row * 8] {
                m0 & !0x01
            } else {
                m0
            };
            let m2: u8 = if self.keyboard_matrix[row * 8 + 1] {
                m1 & !0x02
            } else {
                m1
            };
            let m3: u8 = if self.keyboard_matrix[row * 8 + 2] {
                m2 & !0x04
            } else {
                m2
            };
            let m4: u8 = if self.keyboard_matrix[row * 8 + 3] {
                m3 & !0x08
            } else {
                m3
            };
            let m5: u8 = if self.keyboard_matrix[row * 8 + 4] {
                m4 & !0x10
            } else {
                m4
            };
            let m6: u8 = if self.keyboard_matrix[row * 8 + 5] {
                m5 & !0x20
            } else {
                m5
            };
            let m7: u8 = if self.keyboard_matrix[row * 8 + 6] {
                m6 & !0x40
            } else {
                m6
            };
            let m8: u8 = if self.keyboard_matrix[row * 8 + 7] {
                m7 & !0x80
            } else {
                m7
            };
            m8
        } else {
            0xFF
        }
    }

    /// Reads one of the four numbered registers.
    pub fn read_register(&mut self, reg: u8) -> (r: u8)
        requires
            old(self).wf(),
        ensures
            final(self).wf(),
            r == pia_read_val(old(self)@, reg),
            final(self)@ == pia_read_next(old(self)@, reg),
    {
        if reg == 0 {
            if self.cra & 0x04 != 0 {
                let external_input: u8 = 0xF0;
                (self.ora & self.ddra) | (external_input & !self.ddra)
            } else {
                self.ddra
            }
        } else if reg == 1 {
            let val: u8 = (self.cra & 0x3F) | (if self.irqa1 {
                0x80u8
            } else {
                0u8
            }) | (if self.irqa2 {
                0x40u8
            } else {
                0u8
            });
            self.irqa1 = false;
            self.irqa2 = false;
            val
        } else if reg == 2 {
            if self.crb & 0x04 != 0 {
                let mut result: u8 = self.orb & self.ddrb;
                let keyboard_columns = self.scan_keyboard();
                result = result | (keyboard_columns & !self.ddrb);
                self.irqb1 = false;
                result
            } else {
                self.ddrb
            }
        } else if reg == 3 {
            (self.crb & 0x3F) | (if self.irqb1 {
                0x80u8
            } else {
                0u8
            }) | (if self.irqb2 {
                0x40u8
            } else {
                0u8
            })
        } else {
            0xFF
        }
    }

    /// Writes one of the four numbered registers.
    pub fn write_register(&mut self, reg: u8, val: u8)
        ensures
            final(self)@ == pia_write_spec(old(self)@, reg, val),
            final(self).wf() == old(self).wf(),
    {
        if reg == 0 {
            if self.cra & 0x04 != 0 {
                self.ora = val;
            } else {
                self.ddra = val;
            }
        } else if reg == 1 {
            self.cra = val;
        } else if reg == 2 {
            if self.crb & 0x04 != 0 {
                self.orb = val;
            } else {
                self.ddrb = val;
            }
        } else if reg == 3 {
            self.crb = val;
        }
    }

    /// The aggregate interrupt line.
    pub fn irq_out(&self) -> (r: bool)
        ensures
            r == pia_irq_spec(self@),
    {
        let ca1_irq = (self.cra & 0x01) != 0 && self.irqa1;
        let cb1_irq = (self.crb & 0x01) != 0 && self.irqb1;
        ca1_irq || cb1_irq
    }

    /// Advances the frame counter and the auto-type machine by the given
    /// number of cycles.
    pub fn tick(&mut self, cycles: u32)
        requires
            old(self).wf(),
            old(self).cycle_count + cycles <= u32::MAX,
            old(self).auto_type_timer + cycles <= u32::MAX,
        ensures
            final(self).wf(),
            final(self)@ == pia_tick_spec(old(self)@, cycles),
    {
        self.cycle_count = self.cycle_count + cycles;
        if self.cycle_count >= 16666 {
            self.cycle_count = self.cycle_count - 16666;
            self.irqb1 = true;
        }
        if self.auto_type_queue.len() > 0 {
            self.auto_type_timer = self.auto_type_timer + cycles;
            if self.auto_type_timer >= self.auto_type_delay {
                self.auto_type_timer = 0;
                match self.auto_type_state {
                    AutoTypeState::Pressing => {
                        let n = self.auto_type_queue.len();
                        let (row, col) = self.auto_type_queue[n - 1];
                        self.set_key(row, col, false);
                        self.auto_type_state = AutoTypeState::Releasing;
                    },
                    AutoTypeState::Releasing => {
                        let popped = self.auto_type_queue.pop();
                        if self.auto_type_queue.len() > 0 {
                            let n = self.auto_type_queue.len();
                            let (row, col) = self.auto_type_queue[n - 1];
                            self.set_key(row, col, true);
                            self.auto_type_state = AutoTypeState::Pressing;
                        } else {
                            self.auto_type_state = AutoTypeState::Idle;
                        }
                    },
                    AutoTypeState::Idle => {},
                }
            }
        }
    }

    /// Replaces the auto-type queue with the given keystrokes and starts
    /// pressing, beginning with the queue's last entry.
    pub fn auto_type(&mut self, keys: &[(usize, usize)])
        requires
            old(self).wf(),
        ensures
            final(self).wf(),
            final(self)@ == pia_auto_type_spec(old(self)@, keys@),
    {
        self.auto_type_queue.clear();
        let mut i: usize = 0;
        while i < keys.len()
            invariant
                self.wf(),
                i <= keys@.len(),
                self.auto_type_queue@ == keys@.subrange(0, i as int),
                self@ == (PiaState { queue: self.auto_type_queue@, ..old(self)@ }),
            decreases keys@.len() - i,
        {
            let key = keys[i];
            self.auto_type_queue.push(key);
            proof {
                assert(self.auto_type_queue@ =~= keys@.subrange(0, i + 1));
            }
            i = i + 1;
        }
        proof {
            assert(keys@.subrange(0, keys@.len() as int) =~= keys@);
        }
        if self.auto_type_queue.len() > 0 {
            let n = self.auto_type_queue.len();
            let (row, col) = self.auto_type_queue[n - 1];
            self.set_key(row, col, true);
            self.auto_type_state = AutoTypeState::Pressing;
        }
        self.auto_type_timer = 0;
    }
}

} // verus!
