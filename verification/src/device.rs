//! Radios the application can connect to, and the sorted sets it keeps them in.
use vstd::prelude::*;
use crate::order::{
    compare_text, int_order, lemma_text_order_antisymmetric, lemma_text_order_equal,
    lemma_text_order_transitive, text_order, then_order,
};

verus! {

/// A radio: over Bluetooth by its address, over TCP by its host address
/// (`host` or `host:port`), or over a serial port by its path.
#[derive(Debug, Clone, Hash)]
pub enum Device {
    Ble(String),
    Tcp(String),
    Serial(String),
}

impl Device {
    /// Devices over TCP come first, then Bluetooth, then serial ones.
    pub open spec fn kind_rank(self) -> int {
        match self {
            Device::Tcp(_) => 0,
            Device::Ble(_) => 1,
            Device::Serial(_) => 2,
        }
    }

    pub open spec fn spec_address(self) -> Seq<char> {
        match self {
            Device::Ble(a) => a@,
            Device::Tcp(a) => a@,
            Device::Serial(a) => a@,
        }
    }

    /// Three-way comparison: by kind, then by address.
    pub open spec fn spec_order(self, other: Device) -> int {
        then_order(
            int_order(self.kind_rank(), other.kind_rank()),
            text_order(self.spec_address(), other.spec_address()),
        )
    }

    /// The same device: same kind, same address.
    pub open spec fn same(self, other: Device) -> bool {
        self.kind_rank() == other.kind_rank() && self.spec_address() == other.spec_address()
    }

    pub fn address(&self) -> (r: &String)
        ensures
            r@ == self.spec_address(),
    {
        match self {
            Device::Ble(a) => a,
            Device::Tcp(a) => a,
            Device::Serial(a) => a,
        }
    }

    fn kind_index(&self) -> (r: u8)
        ensures
            r as int == self.kind_rank(),
    {
        match self {
            Device::Tcp(_) => 0,
            Device::Ble(_) => 1,
            Device::Serial(_) => 2,
        }
    }

    /// Compares two devices: -1 when `self` comes first, 1 when `other`
    /// does, 0 when they are the same device.
    pub fn compare(&self, other: &Device) -> (r: i8)
        ensures
            r == self.spec_order(*other),
    {
        let a = self.kind_index();
        let b = other.kind_index();
        if a < b {
            -1
        } else if a > b {
            1
        } else {
            compare_text(self.address().as_str(), other.address().as_str())
        }
    }

    pub fn deep_clone(&self) -> (r: Device)
        ensures
            r.same(*self),
    {
        match self {
            Device::Ble(a) => Device::Ble(a.clone()),
            Device::Tcp(a) => Device::Tcp(a.clone()),
            Device::Serial(a) => Device::Serial(a.clone()),
        }
    }
}

/// Swapping two devices negates their comparison, which is 0 exactly for
/// the same device.
pub proof fn lemma_device_order_antisymmetric(a: Device, b: Device)
    ensures
        a.spec_order(b) == -b.spec_order(a),
        (a.spec_order(b) == 0) == a.same(b),
{
    lemma_text_order_antisymmetric(a.spec_address(), b.spec_address());
    lemma_text_order_equal(a.spec_address(), b.spec_address());
}

/// The order of devices is transitive.
pub proof fn lemma_device_order_transitive(a: Device, b: Device, c: Device)
    requires
        a.spec_order(b) < 0,
        b.spec_order(c) < 0,
    ensures
        a.spec_order(c) < 0,
{
    if a.kind_rank() == b.kind_rank() && b.kind_rank() == c.kind_rank() {
        lemma_text_order_transitive(a.spec_address(), b.spec_address(), c.spec_address());
    }
}

/// A set of devices, sorted by the device order, each device once.
#[derive(Debug, Hash)]
pub struct DeviceSet {
    pub items: Vec<Device>,
}

impl DeviceSet {
    pub open spec fn wf(self) -> bool {
        forall|i: int, j: int|
            0 <= i < j < self.items.len() ==> (#[trigger] self.items@[i]).spec_order(
                #[trigger] self.items@[j],
            ) < 0
    }

    /// Whether the set holds the device `d`.
    pub open spec fn has(self, d: Device) -> bool {
        exists|i: int| 0 <= i < self.items.len() && (#[trigger] self.items@[i]).same(d)
    }

    pub fn new() -> (r: DeviceSet)
        ensures
            r.wf(),
            r.items@ == Seq::<Device>::empty(),
    {
        DeviceSet { items: Vec::new() }
    }

    /// The index of the first device not before `d`.
    fn position(&self, d: &Device) -> (r: usize)
        requires
            self.wf(),
        ensures
            r <= self.items.len(),
            forall|i: int| 0 <= i < r ==> (#[trigger] self.items@[i]).spec_order(*d) < 0,
            r < self.items.len() ==> self.items@[r as int].spec_order(*d) >= 0,
    {
        let mut i: usize = 0;
        while i < self.items.len()
            invariant
                i <= self.items.len(),
                forall|j: int| 0 <= j < i ==> (#[trigger] self.items@[j]).spec_order(*d) < 0,
            decreases self.items.len() - i,
        {
            if self.items[i].compare(d) >= 0 {
                return i;
            }
            i = i + 1;
        }
        i
    }

    proof fn lemma_after_position(self, d: Device, p: int, i: int)
        requires
            self.wf(),
            0 <= p <= i < self.items.len(),
            self.items@[p].spec_order(d) >= 0,
        ensures
            self.items@[i].spec_order(d) >= 0,
            !self.items@[p].same(d) ==> d.spec_order(self.items@[i]) < 0,
    {
        lemma_device_order_antisymmetric(self.items@[p], d);
        lemma_device_order_antisymmetric(self.items@[i], d);
        if i > p {
            if self.items@[p].same(d) {
                lemma_device_order_antisymmetric(self.items@[p], self.items@[i]);
                lemma_device_order_antisymmetric(d, self.items@[i]);
            } else {
                lemma_device_order_transitive(d, self.items@[p], self.items@[i]);
            }
        }
    }

    /// The index of the device `d`, if the set holds it.
    pub fn find(&self, d: &Device) -> (r: Option<usize>)
        requires
            self.wf(),
        ensures
            r matches Some(i) ==> i < self.items.len() && self.items@[i as int].same(*d),
            r is None ==> !self.has(*d),
    {
        let p = self.position(d);
        if p < self.items.len() && self.items[p].compare(d) == 0 {
            proof {
                lemma_device_order_antisymmetric(self.items@[p as int], *d);
            }
            Some(p)
        } else {
            proof {
                if self.has(*d) {
                    let i = choose|i: int| 0 <= i < self.items.len() && (#[trigger] self.items@[i]).same(*d);
                    lemma_device_order_antisymmetric(self.items@[i], *d);
                    if i >= p {
                        self.lemma_after_position(*d, p as int, i);
                        lemma_device_order_antisymmetric(self.items@[p as int], *d);
                    }
                }
            }
            None
        }
    }

    pub fn contains(&self, d: &Device) -> (r: bool)
        requires
            self.wf(),
        ensures
            r == self.has(*d),
    {
        self.find(d).is_some()
    }

    /// Adds `d` where it belongs; false, and the set unchanged, if it held
    /// `d` already.
    pub fn insert(&mut self, d: Device) -> (r: bool)
        requires
            old(self).wf(),
        ensures
            final(self).wf(),
            r == !old(self).has(d),
            !r ==> final(self).items@ == old(self).items@,
            r ==> exists|p: int|
                0 <= p <= old(self).items.len() && final(self).items@ == old(self).items@.insert(
                    p,
                    d,
                ),
    {
        let p = self.position(&d);
        if p < self.items.len() && self.items[p].compare(&d) == 0 {
            proof {
                lemma_device_order_antisymmetric(self.items@[p as int], d);
            }
            return false;
        }
        proof {
            if self.has(d) {
                let i = choose|i: int| 0 <= i < self.items.len() && (#[trigger] self.items@[i]).same(d);
                lemma_device_order_antisymmetric(self.items@[i], d);
                if i >= p {
                    self.lemma_after_position(d, p as int, i);
                    lemma_device_order_antisymmetric(self.items@[p as int], d);
                }
            }
            if p < self.items.len() {
                lemma_device_order_antisymmetric(self.items@[p as int], d);
            }
        }
        let ghost olds = self.items@;
        let ghost old_set = *self;
        self.items.insert(p, d);
        proof {
            assert forall|a: int, b: int| 0 <= a < b < self.items.len() implies (
            #[trigger] self.items@[a]).spec_order(#[trigger] self.items@[b]) < 0 by {
                if a < p && b < p {
                } else if a < p && b == p {
                } else if a < p {
                    assert(olds[a].spec_order(olds[b - 1]) < 0);
                } else if a == p {
                    old_set.lemma_after_position(d, p as int, b - 1);
                } else {
                    assert(olds[a - 1].spec_order(olds[b - 1]) < 0);
                }
            }
        }
        true
    }

    /// Removes `d`; false, and the set unchanged, if it did not hold it.
    pub fn remove(&mut self, d: &Device) -> (r: bool)
        requires
            old(self).wf(),
        ensures
            final(self).wf(),
            r == old(self).has(*d),
            !r ==> final(self).items@ == old(self).items@,
            r ==> exists|i: int|
                0 <= i < old(self).items.len() && old(self).items@[i].same(*d)
                    && final(self).items@ == old(self).items@.remove(i),
    {
        match self.find(d) {
            Some(i) => {
                let ghost olds = self.items@;
                self.items.remove(i);
                proof {
                    assert forall|a: int, b: int| 0 <= a < b < self.items.len() implies (
                    #[trigger] self.items@[a]).spec_order(#[trigger] self.items@[b]) < 0 by {
                        if a < i && b < i {
                            assert(olds[a].spec_order(olds[b]) < 0);
                        } else if a < i {
                            assert(olds[a].spec_order(olds[b + 1]) < 0);
                        } else {
                            assert(olds[a + 1].spec_order(olds[b + 1]) < 0);
                        }
                    }
                }
                true
            },
            None => false,
        }
    }

    /// Removes every device.
    pub fn clear(&mut self)
        ensures
            final(self).wf(),
            final(self).items@ == Seq::<Device>::empty(),
    {
        self.items.clear();
    }
}

} // verus!
