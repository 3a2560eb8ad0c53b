//! The input sampler: held keys to a per-axis intent.
use vstd::prelude::*;

verus! {

/// Which of the four movement keys are held in the current frame.
///
/// `forward` and `back` act on the depth axis (forward is negative depth),
/// `left` and `right` on the sideways axis (right is positive).
#[derive(Clone, Copy, Debug, PartialEq, Eq, Structural)]
pub struct KeyState {
    pub forward: bool,
    pub back: bool,
    pub left: bool,
    pub right: bool,
}

/// The contribution of a pair of opposing keys to one axis: each held key adds
/// its own unit step, so holding both gives zero.
pub open spec fn axis(neg: bool, pos: bool) -> int {
    (if pos { 1int } else { 0int }) - (if neg { 1int } else { 0int })
}

impl KeyState {
    /// The intent on the sideways axis.
    pub open spec fn intent_x(self) -> int {
        axis(self.left, self.right)
    }

    /// The intent on the depth axis.
    pub open spec fn intent_z(self) -> int {
        axis(self.forward, self.back)
    }

    /// The squared length of the intent vector: one for each axis whose keys
    /// do not cancel out, as each component is -1, 0 or 1.
    pub open spec fn intent_norm_sq(self) -> int {
        (if self.left != self.right { 1int } else { 0int }) + (if self.forward != self.back {
            1int
        } else {
            0int
        })
    }
}

/// A movement intent on the two horizontal axes, each component in {-1, 0, 1}.
/// There is no vertical component: no vertical intent is modelled.
#[derive(Clone, Copy, Debug, PartialEq, Eq, Structural)]
pub struct Intent {
    pub x: i8,
    pub z: i8,
}

impl Intent {
    pub open spec fn wf(self) -> bool {
        -1 <= self.x <= 1 && -1 <= self.z <= 1
    }

    pub open spec fn spec_norm_sq(self) -> int {
        self.x * self.x + self.z * self.z
    }

    /// The squared length of the intent.
    pub fn norm_sq(&self) -> (r: u8)
        requires
            self.wf(),
        ensures
            r == self.spec_norm_sq(),
            r <= 2,
    {
        let x: i8 = self.x;
        let z: i8 = self.z;
        proof {
            assert(0 <= x * x <= 1 && 0 <= z * z <= 1) by (nonlinear_arith)
                requires
                    -1 <= x <= 1,
                    -1 <= z <= 1,
            ;
        }
        (x * x + z * z) as u8
    }
}

/// Turns the held keys into an intent: each key contributes one step on its
/// axis, and the contributions are summed.
pub fn sample(keys: &KeyState) -> (r: Intent)
    ensures
        r.wf(),
        r.x == keys.intent_x(),
        r.z == keys.intent_z(),
        r.spec_norm_sq() == keys.intent_norm_sq(),
{
    let mut x: i8 = 0;
    let mut z: i8 = 0;
    if keys.forward {
        z = z - 1;
    }
    if keys.back {
        z = z + 1;
    }
    if keys.left {
        x = x - 1;
    }
    if keys.right {
        x = x + 1;
    }
    Intent { x, z }
}

} // verus!
