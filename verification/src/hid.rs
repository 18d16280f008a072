//! Finding Joy-Cons on the HID bus and choosing the interface to open.
//!
//! The bus itself is reached by the caller; this module decides from the
//! vendor, product and usage numbers that the bus reports for each interface.

use vstd::prelude::*;

use crate::joycon::Side;

verus! {

pub const NINTENDO_VID: u16 = 0x057E;

pub const JOYCON_L_PID: u16 = 0x2006;

pub const JOYCON_R_PID: u16 = 0x2007;

/// HID usage page "Generic Desktop".
pub const USAGE_PAGE_GENERIC_DESKTOP: u16 = 0x0001;

/// HID usage "Gamepad" on the Generic Desktop page.
pub const USAGE_GAMEPAD: u16 = 0x0005;

/// What the HID bus reports of one device interface.
#[derive(Debug, Clone, Copy, PartialEq, Eq, Structural)]
pub struct HidDeviceInfo {
    pub vendor_id: u16,
    pub product_id: u16,
    pub usage_page: u16,
    pub usage: u16,
}

/// The product id of the Joy-Con of `side`.
pub open spec fn product_of(side: Side) -> u16 {
    match side {
        Side::Left => JOYCON_L_PID,
        Side::Right => JOYCON_R_PID,
    }
}

/// The interface belongs to the Joy-Con of `side`.
pub open spec fn is_joycon_of(info: HidDeviceInfo, side: Side) -> bool {
    info.vendor_id == NINTENDO_VID && info.product_id == product_of(side)
}

/// The interface announces itself as a gamepad.
pub open spec fn is_gamepad_interface(info: HidDeviceInfo) -> bool {
    info.usage_page == USAGE_PAGE_GENERIC_DESKTOP && info.usage == USAGE_GAMEPAD
}

/// An interface is a Joy-Con's when its vendor is Nintendo (0x057E) and its
/// product is 0x2006 for the left and 0x2007 for the right Joy-Con; it is the
/// gamepad interface exactly when its usage page is Generic Desktop (0x0001)
/// and its usage is Gamepad (0x0005), so another usage on that page, or usage
/// 5 on another page, does not count.
pub proof fn lemma_interface_identification(info: HidDeviceInfo, side: Side)
    ensures
        is_joycon_of(info, side) <==> info.vendor_id == 0x057E && info.product_id == (match side {
            Side::Left => 0x2006u16,
            Side::Right => 0x2007u16,
        }),
        is_gamepad_interface(info) <==> info.usage_page == 0x0001 && info.usage == 0x0005,
{
}

/// The interface kept among those tried: when some opened interface is the
/// gamepad interface, the kept one is the first such; otherwise it is the first
/// that opened. In particular an opened interface that is not the gamepad
/// interface is never kept over an opened gamepad interface.
pub proof fn lemma_preferred_interface(opened: Seq<bool>, gamepad: Seq<bool>, k: int, j: int)
    requires
        is_preferred(opened, gamepad, k),
        0 <= j < opened.len(),
        opened[j],
    ensures
        gamepad[j] ==> gamepad[k] && k <= j,
        !opened_gamepad(opened, gamepad) ==> k <= j,
        opened[k],
{
    if gamepad[j] {
        assert(opened_gamepad(opened, gamepad));
        if j < k {
            assert(!(opened[j] && gamepad[j]));
        }
    }
}

/// Some interface in `devices` belongs to the Joy-Con of `side`.
pub open spec fn has_joycon(devices: Seq<HidDeviceInfo>, side: Side) -> bool {
    exists|i: int| 0 <= i < devices.len() && is_joycon_of(#[trigger] devices[i], side)
}

/// The positions in `devices` of the interfaces of the Joy-Con of `side`, in
/// list order.
pub open spec fn joycon_positions(devices: Seq<HidDeviceInfo>, side: Side) -> Seq<usize>
    decreases devices.len(),
{
    if devices.len() == 0 {
        Seq::empty()
    } else {
        let before = joycon_positions(devices.drop_last(), side);
        if is_joycon_of(devices.last(), side) {
            before.push((devices.len() - 1) as usize)
        } else {
            before
        }
    }
}

/// Each listed position is in range and names an interface of `side`; the
/// list is empty exactly when no interface of `side` is present.
pub proof fn lemma_joycon_positions(devices: Seq<HidDeviceInfo>, side: Side)
    requires
        devices.len() <= usize::MAX,
    ensures
        forall|k: int|
            0 <= k < joycon_positions(devices, side).len() ==> {
                &&& (#[trigger] joycon_positions(devices, side)[k]) < devices.len()
                &&& is_joycon_of(devices[joycon_positions(devices, side)[k] as int], side)
            },
        joycon_positions(devices, side).len() == 0 <==> !has_joycon(devices, side),
        joycon_positions(devices, side).len() <= devices.len(),
    decreases devices.len(),
{
    if devices.len() > 0 {
        let before = devices.drop_last();
        lemma_joycon_positions(before, side);
        assert forall|k: int|
            0 <= k < joycon_positions(devices, side).len() implies {
                &&& (#[trigger] joycon_positions(devices, side)[k]) < devices.len()
                &&& is_joycon_of(devices[joycon_positions(devices, side)[k] as int], side)
            } by {
            if k < joycon_positions(before, side).len() {
                let p = joycon_positions(before, side)[k];
                assert(joycon_positions(devices, side)[k] == p);
                assert(devices[p as int] == before[p as int]);
            } else {
                assert(joycon_positions(devices, side)[k] == devices.len() - 1);
            }
        }
        if has_joycon(before, side) {
            let i = choose|i: int| 0 <= i < before.len() && is_joycon_of(#[trigger] before[i], side);
            assert(devices[i] == before[i]);
        }
        if has_joycon(devices, side) && !is_joycon_of(devices.last(), side) {
            let i = choose|i: int| 0 <= i < devices.len() && is_joycon_of(#[trigger] devices[i], side);
            assert(before[i] == devices[i]);
        }
    }
}

/// The product id of the Joy-Con of `side`.
pub fn joycon_pid(side: Side) -> (pid: u16)
    ensures
        pid == product_of(side),
{
    match side {
        Side::Left => JOYCON_L_PID,
        Side::Right => JOYCON_R_PID,
    }
}

/// Scan the listed interfaces: whether a left and whether a right Joy-Con is
/// present.
pub fn scan_for_joycons(devices: &[HidDeviceInfo]) -> (found: (bool, bool))
    ensures
        found.0 == has_joycon(devices@, Side::Left),
        found.1 == has_joycon(devices@, Side::Right),
{
    let mut left = false;
    let mut right = false;
    let n = devices.len();
    for i in 0..n
        invariant
            n == devices@.len(),
            left == exists|j: int| 0 <= j < i && is_joycon_of(#[trigger] devices@[j], Side::Left),
            right == exists|j: int| 0 <= j < i && is_joycon_of(#[trigger] devices@[j], Side::Right),
    {
        let dev = devices[i];
        if dev.vendor_id == NINTENDO_VID {
            if dev.product_id == JOYCON_L_PID {
                left = true;
            } else if dev.product_id == JOYCON_R_PID {
                right = true;
            }
        }
        assert(dev == devices@[i as int]);
    }
    (left, right)
}

/// How many bytes a non-blocking read delivered: `None` when nothing was
/// waiting (a read of zero bytes), else the count.
pub fn report_count(read: usize) -> (r: Option<usize>)
    ensures
        r == (if read == 0 {
            None
        } else {
            Some(read)
        }),
{
    if read == 0 {
        None
    } else {
        Some(read)
    }
}

/// Why no interface of a Joy-Con could be chosen.
#[derive(Debug, Clone, Copy, PartialEq, Eq, Structural)]
pub enum OpenError {
    /// No interface of that Joy-Con is on the bus.
    NotFound,
    /// Interfaces were found but none of them could be opened.
    NoInterface,
}

/// Some tried interface that opened is a gamepad interface.
pub open spec fn opened_gamepad(opened: Seq<bool>, gamepad: Seq<bool>) -> bool {
    exists|j: int| 0 <= j < opened.len() && #[trigger] opened[j] && gamepad[j]
}

/// Position `k` is the interface to keep among those tried: the first one
/// that opened and is a gamepad interface, or, when no opened interface is a
/// gamepad, the first one that opened.
pub open spec fn is_preferred(opened: Seq<bool>, gamepad: Seq<bool>, k: int) -> bool {
    &&& 0 <= k < opened.len()
    &&& opened[k]
    &&& if opened_gamepad(opened, gamepad) {
        &&& gamepad[k]
        &&& forall|j: int| 0 <= j < k ==> !(#[trigger] opened[j] && gamepad[j])
    } else {
        forall|j: int| 0 <= j < k ==> !#[trigger] opened[j]
    }
}

/// The choice among the interfaces of one Joy-Con, made as the caller tries
/// to open them one after the other.
pub struct InterfaceSearch {
    positions: Vec<usize>,
    gamepad: Vec<bool>,
    next: usize,
    stopped: bool,
    best: Option<usize>,
    tried: Ghost<Seq<bool>>,
}

impl InterfaceSearch {
    /// Device-list positions of the interfaces, in the order they are tried.
    pub closed spec fn positions(&self) -> Seq<usize> {
        self.positions@
    }

    /// Whether each interface is a gamepad interface.
    pub closed spec fn gamepads(&self) -> Seq<bool> {
        self.gamepad@
    }

    /// Whether each interface tried so far opened.
    pub closed spec fn tried(&self) -> Seq<bool> {
        self.tried@
    }

    /// The search has ended: a gamepad interface opened, or every interface
    /// was tried.
    pub open spec fn finished(&self) -> bool {
        opened_gamepad(self.tried(), self.gamepads()) || self.tried().len() >= self.positions().len()
    }

    pub closed spec fn wf(&self) -> bool {
        &&& self.gamepad@.len() == self.positions@.len()
        &&& self.next == self.tried@.len()
        &&& self.tried@.len() <= self.positions@.len()
        &&& self.stopped == opened_gamepad(self.tried@, self.gamepad@)
        &&& match self.best {
            Some(k) => is_preferred(self.tried@, self.gamepad@, k as int),
            None => forall|j: int| 0 <= j < self.tried@.len() ==> !#[trigger] self.tried@[j],
        }
    }

    /// Start a search over the interfaces of the Joy-Con of `side`; fails with
    /// `NotFound` when the list holds none.
    pub fn new(devices: &[HidDeviceInfo], side: Side) -> (r: Result<Self, OpenError>)
        ensures
            r is Err <==> !has_joycon(devices@, side),
            r matches Err(e) ==> e == OpenError::NotFound,
            r matches Ok(s) ==> {
                &&& s.wf()
                &&& s.positions() == joycon_positions(devices@, side)
                &&& s.tried() == Seq::<bool>::empty()
                &&& s.gamepads().len() == s.positions().len()
                &&& forall|k: int|
                    0 <= k < s.positions().len() ==> #[trigger] s.gamepads()[k]
                        == is_gamepad_interface(devices@[s.positions()[k] as int])
                &&& forall|k: int|
                    0 <= k < s.positions().len() ==> (#[trigger] s.gamepads()[k] <==> (
                    devices@[s.positions()[k] as int].usage_page == 0x0001
                        && devices@[s.positions()[k] as int].usage == 0x0005))
            },
    {
        let pid = joycon_pid(side);
        let mut positions: Vec<usize> = Vec::new();
        let mut gamepad: Vec<bool> = Vec::new();
        let n = devices.len();
        proof {
            lemma_joycon_positions(devices@, side);
            assert(devices@.take(0) =~= Seq::<HidDeviceInfo>::empty());
        }
        let mut i: usize = 0;
        while i < n
            invariant
                i <= n,
                n == devices@.len(),
                pid == product_of(side),
                positions@ == joycon_positions(devices@.take(i as int), side),
                gamepad@.len() == positions@.len(),
                forall|k: int| 0 <= k < positions@.len() ==> #[trigger] positions@[k] < i,
                forall|k: int|
                    0 <= k < positions@.len() ==> #[trigger] gamepad@[k] == is_gamepad_interface(
                        devices@[positions@[k] as int],
                    ),
            decreases n - i,
        {
            let dev = devices[i];
            let ghost old_positions = positions@;
            let ghost old_gamepad = gamepad@;
            proof {
                assert(devices@.take(i + 1).drop_last() =~= devices@.take(i as int));
                assert(devices@.take(i + 1).last() == devices@[i as int]);
            }
            if dev.vendor_id == NINTENDO_VID && dev.product_id == pid {
                positions.push(i);
                gamepad.push(
                    dev.usage_page == USAGE_PAGE_GENERIC_DESKTOP && dev.usage == USAGE_GAMEPAD,
                );
            }
            assert(dev == devices@[i as int]);
            assert forall|k: int| 0 <= k < positions@.len() implies #[trigger] positions@[k] < i + 1
                && gamepad@[k] == is_gamepad_interface(devices@[positions@[k] as int]) by {
                if k < old_positions.len() {
                    assert(positions@[k] == old_positions[k]);
                    assert(gamepad@[k] == old_gamepad[k]);
                } else {
                    assert(positions@[k] == i);
                }
            }
            i = i + 1;
        }
        proof {
            assert(devices@.take(n as int) =~= devices@);
        }
        if positions.len() == 0 {
            return Err(OpenError::NotFound);
        }
        Ok(
            InterfaceSearch {
                positions,
                gamepad,
                next: 0,
                stopped: false,
                best: None,
                tried: Ghost(Seq::empty()),
            },
        )
    }

    /// The device-list position of the next interface to open, or `None`
    /// when the search has ended.
    pub fn next_candidate(&self) -> (r: Option<usize>)
        requires
            self.wf(),
        ensures
            r matches Some(p) ==> !self.finished() && p == self.positions()[self.tried().len() as int],
            r is None ==> self.finished(),
    {
        if !self.stopped && self.next < self.positions.len() {
            Some(self.positions[self.next])
        } else {
            None
        }
    }

    /// Record whether the interface named by `next_candidate` opened. Gives
    /// whether the caller keeps that interface in place of the one kept
    /// before: an opened gamepad interface is always kept, another opened
    /// interface only when none is kept yet. After a finished search nothing
    /// changes.
    pub fn record(&mut self, opened: bool) -> (keep: bool)
        requires
            old(self).wf(),
        ensures
            final(self).wf(),
            final(self).positions() == old(self).positions(),
            final(self).gamepads() == old(self).gamepads(),
            old(self).finished() ==> final(self).tried() == old(self).tried() && !keep,
            !old(self).finished() ==> {
                let k = old(self).tried().len() as int;
                &&& final(self).tried() == old(self).tried().push(opened)
                &&& keep == (opened && (old(self).gamepads()[k] || forall|j: int|
                    0 <= j < k ==> !#[trigger] old(self).tried()[j]))
            },
    {
        if self.stopped || self.next >= self.positions.len() {
            return false;
        }
        let k = self.next;
        let is_gamepad = self.gamepad[k];
        let ghost before = self.tried@;
        let keep = opened && (is_gamepad || self.best.is_none());
        proof {
            self.tried@ = before.push(opened);
        }
        if keep {
            self.best = Some(k);
        }
        if opened && is_gamepad {
            self.stopped = true;
        }
        self.next = k + 1;
        proof {
            let t = self.tried@;
            let g = self.gamepad@;
            assert forall|j: int| 0 <= j < k implies t[j] == before[j] by {}
            if opened_gamepad(t, g) && !opened_gamepad(before, g) {
                assert(opened && is_gamepad) by {
                    let j = choose|j: int| 0 <= j < t.len() && #[trigger] t[j] && g[j];
                    if j < k {
                        assert(before[j]);
                    }
                }
            }
            if opened && is_gamepad {
                assert(t[k as int] && g[k as int]);
            }
            if opened_gamepad(before, g) {
                let j = choose|j: int| 0 <= j < before.len() && #[trigger] before[j] && g[j];
                assert(t[j]);
            }
        }
        keep
    }

    /// The device-list position of the interface chosen once the search has
    /// ended; `NoInterface` when no tried interface opened.
    pub fn finish(&self) -> (r: Result<usize, OpenError>)
        requires
            self.wf(),
        ensures
            r matches Ok(p) ==> exists|k: int|
                is_preferred(self.tried(), self.gamepads(), k) && p == self.positions()[k],
            r matches Err(e) ==> e == OpenError::NoInterface,
            r is Err <==> forall|j: int| 0 <= j < self.tried().len() ==> !#[trigger] self.tried()[j],
    {
        match self.best {
            Some(k) => {
                proof {
                    assert(self.tried@[k as int]);
                    assert(is_preferred(self.tried(), self.gamepads(), k as int));
                    assert(self.positions[k as int] == self.positions()[k as int]);
                }
                Ok(self.positions[k])
            },
            None => Err(OpenError::NoInterface),
        }
    }
}

} // verus!
