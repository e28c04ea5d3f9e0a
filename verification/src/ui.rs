//! Terminal rendering rules: every function builds the text of a line;
//! printing it is the caller's business. Styling obeys a colour switch,
//! and the symbol set obeys a unicode switch, both decided by the caller
//! at startup.

use vstd::prelude::*;
use vstd::string::*;
use crate::text::{repeat_str, spec_dec, spec_repeat, u64_to_dec};

verus! {

/// The rendering switches.
pub struct Ui {
    pub color: bool,
    pub unicode: bool,
}

/// Text wrapped in one ANSI style, when colour is on.
pub open spec fn spec_style(color: bool, code: Seq<char>, text: Seq<char>) -> Seq<char> {
    if color {
        "\u{1b}["@ + code + "m"@ + text + "\u{1b}[0m"@
    } else {
        text
    }
}

pub open spec fn spec_sym_ok(unicode: bool) -> Seq<char> {
    if unicode {
        "\u{2713}"@
    } else {
        "[OK]"@
    }
}

pub open spec fn spec_sym_fail(unicode: bool) -> Seq<char> {
    if unicode {
        "\u{2717}"@
    } else {
        "[FAIL]"@
    }
}

pub open spec fn spec_sym_warn(unicode: bool) -> Seq<char> {
    if unicode {
        "\u{26a0}"@
    } else {
        "[WARN]"@
    }
}

pub open spec fn spec_sym_phase(unicode: bool) -> Seq<char> {
    if unicode {
        "\u{25cf}"@
    } else {
        "*"@
    }
}

pub open spec fn spec_sym_arrow(unicode: bool) -> Seq<char> {
    if unicode {
        "\u{2192}"@
    } else {
        "->"@
    }
}

pub open spec fn spec_sym_diamond(unicode: bool) -> Seq<char> {
    if unicode {
        "\u{25c6}"@
    } else {
        "+"@
    }
}

pub open spec fn spec_box_h(unicode: bool) -> Seq<char> {
    if unicode {
        "\u{2500}"@
    } else {
        "-"@
    }
}

pub open spec fn spec_box_v(unicode: bool) -> Seq<char> {
    if unicode {
        "\u{2502}"@
    } else {
        "|"@
    }
}

impl Ui {
    /// A renderer with the given switches. The caller decides them from
    /// the terminal and the locale.
    pub fn new(color: bool, unicode: bool) -> (r: Ui)
        ensures
            r.color == color,
            r.unicode == unicode,
    {
        Ui { color, unicode }
    }

    /// Wraps text in one ANSI style when colour is on.
    fn style(&self, code: &str, text: &str) -> (r: String)
        ensures
            r@ == spec_style(self.color, code@, text@),
    {
        if self.color {
            let mut r = String::from_str("\u{1b}[");
            r.append(code);
            r.append("m");
            r.append(text);
            r.append("\u{1b}[0m");
            proof {
                assert(r@ =~= spec_style(self.color, code@, text@));
            }
            r
        } else {
            String::from_str(text)
        }
    }

    /// Dim text.
    pub fn dim(&self, text: &str) -> (r: String)
        ensures
            r@ == spec_style(self.color, "2"@, text@),
    {
        self.style("2", text)
    }

    /// Bold text.
    pub fn bold(&self, text: &str) -> (r: String)
        ensures
            r@ == spec_style(self.color, "1"@, text@),
    {
        self.style("1", text)
    }

    /// An informational step line.
    pub fn step_info(&self, message: &str) -> (r: String)
        ensures
            r@ == "      "@ + spec_style(self.color, "34"@, spec_sym_arrow(self.unicode)) + " "@
                + message@,
    {
        let sym = if self.unicode {
            "\u{2192}"
        } else {
            "->"
        };
        let mut r = String::from_str("      ");
        let s = self.style("34", sym);
        r.append(s.as_str());
        r.append(" ");
        r.append(message);
        proof {
            assert(r@ =~= "      "@ + spec_style(self.color, "34"@, spec_sym_arrow(self.unicode))
                + " "@ + message@);
        }
        r
    }

    /// A success step line.
    pub fn step_ok(&self, message: &str) -> (r: String)
        ensures
            r@ == "      "@ + spec_style(self.color, "32"@, spec_sym_ok(self.unicode)) + " "@
                + message@,
    {
        let sym = if self.unicode {
            "\u{2713}"
        } else {
            "[OK]"
        };
        let mut r = String::from_str("      ");
        let s = self.style("32", sym);
        r.append(s.as_str());
        r.append(" ");
        r.append(message);
        proof {
            assert(r@ =~= "      "@ + spec_style(self.color, "32"@, spec_sym_ok(self.unicode))
                + " "@ + message@);
        }
        r
    }

    /// A warning step line.
    pub fn step_warn(&self, message: &str) -> (r: String)
        ensures
            r@ == "      "@ + spec_style(self.color, "33"@, spec_sym_warn(self.unicode)) + " "@
                + message@,
    {
        let sym = if self.unicode {
            "\u{26a0}"
        } else {
            "[WARN]"
        };
        let mut r = String::from_str("      ");
        let s = self.style("33", sym);
        r.append(s.as_str());
        r.append(" ");
        r.append(message);
        proof {
            assert(r@ =~= "      "@ + spec_style(self.color, "33"@, spec_sym_warn(self.unicode))
                + " "@ + message@);
        }
        r
    }

    /// An error step line.
    pub fn step_error(&self, message: &str) -> (r: String)
        ensures
            r@ == "      "@ + spec_style(self.color, "31"@, spec_sym_fail(self.unicode)) + " "@
                + message@,
    {
        let sym = if self.unicode {
            "\u{2717}"
        } else {
            "[FAIL]"
        };
        let mut r = String::from_str("      ");
        let s = self.style("31", sym);
        r.append(s.as_str());
        r.append(" ");
        r.append(message);
        proof {
            assert(r@ =~= "      "@ + spec_style(self.color, "31"@, spec_sym_fail(self.unicode))
                + " "@ + message@);
        }
        r
    }

    /// A phase banner line.
    pub fn phase(&self, label: &str) -> (r: String)
        ensures
            r@ == "  "@ + spec_style(self.color, "34"@, spec_sym_phase(self.unicode)) + " "@
                + spec_style(self.color, "1"@, label@),
    {
        let sym = if self.unicode {
            "\u{25cf}"
        } else {
            "*"
        };
        let mut r = String::from_str("  ");
        let s = self.style("34", sym);
        r.append(s.as_str());
        r.append(" ");
        let b = self.bold(label);
        r.append(b.as_str());
        proof {
            assert(r@ =~= "  "@ + spec_style(self.color, "34"@, spec_sym_phase(self.unicode))
                + " "@ + spec_style(self.color, "1"@, label@));
        }
        r
    }

    /// A labelled horizontal separator line.
    pub fn separator(&self, label: &str, width: usize) -> (r: String)
        ensures
            ({
                let h = spec_box_h(self.unicode);
                let rem = if label@.len() + 5 <= width {
                    (width - label@.len() - 5) as nat
                } else {
                    0nat
                };
                r@ == "  "@ + spec_style(
                    self.color,
                    "2"@,
                    h + h + " "@ + label@ + " "@ + spec_repeat(h, rem),
                )
            }),
    {
        let h = if self.unicode {
            "\u{2500}"
        } else {
            "-"
        };
        let ll: usize = label.unicode_len();
        let rem: usize = if width >= 5 && ll <= width - 5 {
            width - ll - 5
        } else {
            0
        };
        let mut base = String::from_str(h);
        base.append(h);
        base.append(" ");
        base.append(label);
        base.append(" ");
        let pad = repeat_str(h, rem);
        base.append(pad.as_str());
        let mut r = String::from_str("  ");
        let s = self.dim(base.as_str());
        r.append(s.as_str());
        proof {
            let hs = spec_box_h(self.unicode);
            assert(base@ =~= hs + hs + " "@ + label@ + " "@ + spec_repeat(hs, rem as nat));
            assert(r@ =~= "  "@ + spec_style(self.color, "2"@, base@));
        }
        r
    }

    /// A box top line.
    pub fn box_header(&self, label: &str, width: usize) -> (r: String)
        ensures
            ({
                let h = spec_box_h(self.unicode);
                let tl = if self.unicode {
                    "\u{256d}"@
                } else {
                    "+"@
                };
                let tr = if self.unicode {
                    "\u{256e}"@
                } else {
                    "+"@
                };
                let inner = if width >= 2 {
                    (width - 2) as nat
                } else {
                    0nat
                };
                let rem = if label@.len() + 3 <= inner {
                    (inner - label@.len() - 3) as nat
                } else {
                    0nat
                };
                r@ == "  "@ + spec_style(
                    self.color,
                    "36"@,
                    tl + h + " "@ + label@ + " "@ + spec_repeat(h, rem) + tr,
                )
            }),
    {
        let h = if self.unicode {
            "\u{2500}"
        } else {
            "-"
        };
        let tl = if self.unicode {
            "\u{256d}"
        } else {
            "+"
        };
        let tr = if self.unicode {
            "\u{256e}"
        } else {
            "+"
        };
        let inner: usize = if width >= 2 {
            width - 2
        } else {
            0
        };
        let ll: usize = label.unicode_len();
        let rem: usize = if inner >= 3 && ll <= inner - 3 {
            inner - ll - 3
        } else {
            0
        };
        let mut line = String::from_str(tl);
        line.append(h);
        line.append(" ");
        line.append(label);
        line.append(" ");
        let pad = repeat_str(h, rem);
        line.append(pad.as_str());
        line.append(tr);
        let mut r = String::from_str("  ");
        let s = self.style("36", line.as_str());
        r.append(s.as_str());
        proof {
            let hs = spec_box_h(self.unicode);
            let tls = if self.unicode {
                "\u{256d}"@
            } else {
                "+"@
            };
            let trs = if self.unicode {
                "\u{256e}"@
            } else {
                "+"@
            };
            assert(line@ =~= tls + hs + " "@ + label@ + " "@ + spec_repeat(hs, rem as nat) + trs);
            assert(r@ =~= "  "@ + spec_style(self.color, "36"@, line@));
        }
        r
    }

    /// A box content line, padded to the box width.
    pub fn box_line(&self, content: &str, width: usize) -> (r: String)
        ensures
            ({
                let v = spec_box_v(self.unicode);
                let inner = if width >= 2 {
                    (width - 2) as nat
                } else {
                    0nat
                };
                let pad = if content@.len() < inner {
                    spec_repeat(" "@, (inner - content@.len()) as nat)
                } else {
                    Seq::<char>::empty()
                };
                r@ == "  "@ + spec_style(self.color, "36"@, v) + content@ + pad + spec_style(
                    self.color,
                    "36"@,
                    v,
                )
            }),
    {
        let v = if self.unicode {
            "\u{2502}"
        } else {
            "|"
        };
        let inner: usize = if width >= 2 {
            width - 2
        } else {
            0
        };
        let cl: usize = content.unicode_len();
        let mut r = String::from_str("  ");
        let s = self.style("36", v);
        r.append(s.as_str());
        r.append(content);
        if cl < inner {
            let pad = repeat_str(" ", inner - cl);
            r.append(pad.as_str());
        }
        let s2 = self.style("36", v);
        r.append(s2.as_str());
        proof {
            let vs = spec_box_v(self.unicode);
            let inner_s = if width >= 2 {
                (width - 2) as nat
            } else {
                0nat
            };
            let pad_s = if content@.len() < inner_s {
                spec_repeat(" "@, (inner_s - content@.len()) as nat)
            } else {
                Seq::<char>::empty()
            };
            assert(r@ =~= "  "@ + spec_style(self.color, "36"@, vs) + content@ + pad_s
                + spec_style(self.color, "36"@, vs));
        }
        r
    }

    /// An empty box line.
    pub fn box_empty(&self, width: usize) -> (r: String)
        ensures
            ({
                let v = spec_box_v(self.unicode);
                let inner = if width >= 2 {
                    (width - 2) as nat
                } else {
                    0nat
                };
                r@ == "  "@ + spec_style(self.color, "36"@, v) + spec_repeat(" "@, inner)
                    + spec_style(self.color, "36"@, v)
            }),
    {
        let r = self.box_line("", width);
        proof {
            reveal_strlit("");
            assert(""@.len() == 0);
            let inner = if width >= 2 {
                (width - 2) as nat
            } else {
                0nat
            };
            if inner == 0 {
                assert(spec_repeat(" "@, inner) =~= Seq::<char>::empty());
            }
            assert(r@ =~= "  "@ + spec_style(self.color, "36"@, spec_box_v(self.unicode))
                + spec_repeat(" "@, inner) + spec_style(self.color, "36"@, spec_box_v(
                self.unicode,
            )));
        }
        r
    }

    /// A box bottom line.
    pub fn box_footer(&self, width: usize) -> (r: String)
        ensures
            ({
                let h = spec_box_h(self.unicode);
                let bl = if self.unicode {
                    "\u{2570}"@
                } else {
                    "+"@
                };
                let br = if self.unicode {
                    "\u{256f}"@
                } else {
                    "+"@
                };
                let inner = if width >= 2 {
                    (width - 2) as nat
                } else {
                    0nat
                };
                r@ == "  "@ + spec_style(self.color, "36"@, bl + spec_repeat(h, inner) + br)
            }),
    {
        let h = if self.unicode {
            "\u{2500}"
        } else {
            "-"
        };
        let bl = if self.unicode {
            "\u{2570}"
        } else {
            "+"
        };
        let br = if self.unicode {
            "\u{256f}"
        } else {
            "+"
        };
        let inner: usize = if width >= 2 {
            width - 2
        } else {
            0
        };
        let mut line = String::from_str(bl);
        let pad = repeat_str(h, inner);
        line.append(pad.as_str());
        line.append(br);
        let mut r = String::from_str("  ");
        let s = self.style("36", line.as_str());
        r.append(s.as_str());
        proof {
            let hs = spec_box_h(self.unicode);
            let bls = if self.unicode {
                "\u{2570}"@
            } else {
                "+"@
            };
            let brs = if self.unicode {
                "\u{256f}"@
            } else {
                "+"@
            };
            assert(line@ =~= bls + spec_repeat(hs, inner as nat) + brs);
            assert(r@ =~= "  "@ + spec_style(self.color, "36"@, line@));
        }
        r
    }

    /// A progress bar with counts and a label.
    pub fn progress_bar(&self, current: usize, total: usize, width: usize, label: &str) -> (r:
        String)
        requires
            width * current <= usize::MAX,
        ensures
            ({
                let full = if self.unicode {
                    "\u{2588}"@
                } else {
                    "#"@
                };
                let empty_c = if self.unicode {
                    "\u{2591}"@
                } else {
                    "."@
                };
                if total == 0 {
                    r@ == "0/0 "@ + label@
                } else {
                    let filled = ((width * current) / (total as int)) as nat;
                    let empty_n = if filled <= width {
                        (width - filled) as nat
                    } else {
                        0nat
                    };
                    r@ == spec_repeat(full, filled) + spec_repeat(empty_c, empty_n) + " "@
                        + spec_dec(current as nat) + "/"@ + spec_dec(total as nat) + " "@ + label@
                }
            }),
    {
        if total == 0 {
            let mut r = String::from_str("0/0 ");
            r.append(label);
            proof {
                assert(r@ =~= "0/0 "@ + label@);
            }
            return r;
        }
        let full = if self.unicode {
            "\u{2588}"
        } else {
            "#"
        };
        let empty_c = if self.unicode {
            "\u{2591}"
        } else {
            "."
        };
        let filled: usize = width * current / total;
        let empty_n: usize = if filled <= width {
            width - filled
        } else {
            0
        };
        let mut r = repeat_str(full, filled);
        let e = repeat_str(empty_c, empty_n);
        r.append(e.as_str());
        r.append(" ");
        let c = u64_to_dec(current as u64);
        r.append(c.as_str());
        r.append("/");
        let t = u64_to_dec(total as u64);
        r.append(t.as_str());
        r.append(" ");
        r.append(label);
        proof {
            let fulls = if self.unicode {
                "\u{2588}"@
            } else {
                "#"@
            };
            let emptys = if self.unicode {
                "\u{2591}"@
            } else {
                "."@
            };
            assert(r@ =~= spec_repeat(fulls, filled as nat) + spec_repeat(emptys, empty_n as nat)
                + " "@ + spec_dec(current as nat) + "/"@ + spec_dec(total as nat) + " "@ + label@);
        }
        r
    }

    /// The diamond separator symbol.
    pub fn diamond(&self) -> (r: &'static str)
        ensures
            r@ == spec_sym_diamond(self.unicode),
    {
        if self.unicode {
            "\u{25c6}"
        } else {
            "+"
        }
    }

    /// The arrow symbol.
    pub fn arrow(&self) -> (r: &'static str)
        ensures
            r@ == spec_sym_arrow(self.unicode),
    {
        if self.unicode {
            "\u{2192}"
        } else {
            "->"
        }
    }
}

} // verus!
