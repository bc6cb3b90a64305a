//! The order in which output devices are listed: by name, then by device name, both
//! without regard to case, then by id.
use vstd::prelude::*;
use crate::models::playback::PlaybackOutputDevice;
use crate::text::chars_of;

verus! {

/// The lowercase form of a text, as `str::to_lowercase` gives it.
pub uninterp spec fn lowercase_of(s: Seq<char>) -> Seq<char>;

/// `s` in lowercase, from `str::to_lowercase`; what the Unicode lowercase mapping gives is
/// not stated, only that it depends on the text alone.
#[verifier::external_body]
fn to_lowercase(s: &str) -> (r: String)
    ensures
        r@ == lowercase_of(s@),
{
    s.to_lowercase()
}

/// `a` comes before `b` in the order of `str`'s comparison: by the first character that
/// differs, a text before any longer text that it starts.
pub open spec fn text_lt(a: Seq<char>, b: Seq<char>) -> bool
    decreases a.len(),
{
    if a.len() == 0 {
        b.len() > 0
    } else if b.len() == 0 {
        false
    } else if a[0] != b[0] {
        a[0] < b[0]
    } else {
        text_lt(a.drop_first(), b.drop_first())
    }
}

/// The key a device is ordered by.
pub open spec fn device_key(d: PlaybackOutputDevice) -> (Seq<char>, Seq<char>, Seq<char>) {
    (lowercase_of(d.name@), lowercase_of(d.device_name@), d.id@)
}

/// Key `a` comes before key `b`: by the first part, then the second, then the third.
pub open spec fn key_lt(a: (Seq<char>, Seq<char>, Seq<char>), b: (Seq<char>, Seq<char>, Seq<char>)) -> bool {
    ||| text_lt(a.0, b.0)
    ||| a.0 == b.0 && text_lt(a.1, b.1)
    ||| a.0 == b.0 && a.1 == b.1 && text_lt(a.2, b.2)
}

/// No device of `s` comes after a later one.
pub open spec fn devices_sorted(s: Seq<PlaybackOutputDevice>) -> bool {
    forall|i: int, j: int| 0 <= i < j < s.len() ==> !key_lt(device_key(s[j]), device_key(s[i]))
}

/// Text order is a strict total order.
proof fn lemma_text_lt_order(a: Seq<char>, b: Seq<char>, c: Seq<char>)
    ensures
        !(text_lt(a, b) && text_lt(b, a)),
        !text_lt(a, a),
        a != b ==> text_lt(a, b) || text_lt(b, a),
        text_lt(a, b) && text_lt(b, c) ==> text_lt(a, c),
    decreases a.len(),
{
    if a.len() > 0 {
        let a1 = a.drop_first();
        let b1 = if b.len() > 0 {
            b.drop_first()
        } else {
            a1
        };
        let c1 = if c.len() > 0 {
            c.drop_first()
        } else {
            a1
        };
        lemma_text_lt_order(a1, b1, c1);
    }
    if a.len() > 0 && b.len() > 0 && a != b && a[0] == b[0] {
        assert(a.drop_first() != b.drop_first()) by {
            if a.drop_first() == b.drop_first() {
                assert(a =~= seq![a[0]] + a.drop_first());
                assert(b =~= seq![b[0]] + b.drop_first());
            }
        }
    }
    if a.len() == 0 && b.len() == 0 {
        assert(a =~= b);
    }
}

/// Key order is a strict total order on keys.
proof fn lemma_key_lt_order(
    a: (Seq<char>, Seq<char>, Seq<char>),
    b: (Seq<char>, Seq<char>, Seq<char>),
    c: (Seq<char>, Seq<char>, Seq<char>),
)
    ensures
        !(key_lt(a, b) && key_lt(b, a)),
        key_lt(a, b) && key_lt(b, c) ==> key_lt(a, c),
        !key_lt(a, b) && !key_lt(b, c) ==> !key_lt(a, c),
{
    lemma_text_lt_order(a.0, b.0, c.0);
    lemma_text_lt_order(a.1, b.1, c.1);
    lemma_text_lt_order(a.2, b.2, c.2);
    lemma_text_lt_order(b.0, a.0, c.0);
    lemma_text_lt_order(b.1, a.1, c.1);
    lemma_text_lt_order(b.2, a.2, c.2);
    lemma_text_lt_order(c.0, b.0, a.0);
    lemma_text_lt_order(c.1, b.1, a.1);
    lemma_text_lt_order(c.2, b.2, a.2);
    lemma_text_lt_order(a.0, c.0, b.0);
    lemma_text_lt_order(a.1, c.1, b.1);
    lemma_text_lt_order(a.2, c.2, b.2);
    lemma_text_lt_order(b.0, c.0, a.0);
    lemma_text_lt_order(b.1, c.1, a.1);
    lemma_text_lt_order(b.2, c.2, a.2);
    lemma_text_lt_order(c.0, a.0, b.0);
    lemma_text_lt_order(c.1, a.1, b.1);
    lemma_text_lt_order(c.2, a.2, b.2);
}

/// Whether `a` comes before `b` in text order.
fn text_less(a: &Vec<char>, b: &Vec<char>) -> (r: bool)
    ensures
        r == text_lt(a@, b@),
{
    let mut i: usize = 0;
    assert(a@.subrange(0, 0) =~= b@.subrange(0, 0));
    assert(a@.subrange(0, a@.len() as int) =~= a@);
    assert(b@.subrange(0, b@.len() as int) =~= b@);
    while i < a.len() && i < b.len()
        invariant
            i <= a.len(),
            i <= b.len(),
            a@.subrange(0, i as int) == b@.subrange(0, i as int),
            text_lt(a@, b@) == text_lt(a@.subrange(i as int, a@.len() as int), b@.subrange(i as int, b@.len() as int)),
        decreases a.len() - i,
    {
        let ghost rest_a = a@.subrange(i as int, a@.len() as int);
        let ghost rest_b = b@.subrange(i as int, b@.len() as int);
        assert(rest_a[0] == a@[i as int]);
        assert(rest_b[0] == b@[i as int]);
        if a[i] != b[i] {
            return a[i] < b[i];
        }
        assert(rest_a.drop_first() =~= a@.subrange(i + 1, a@.len() as int));
        assert(rest_b.drop_first() =~= b@.subrange(i + 1, b@.len() as int));
        assert(a@.subrange(0, i + 1) =~= a@.subrange(0, i as int).push(a@[i as int]));
        assert(b@.subrange(0, i + 1) =~= b@.subrange(0, i as int).push(b@[i as int]));
        i = i + 1;
    }
    i < b.len()
}

/// The key a device is ordered by, as characters.
struct DeviceKey {
    name: Vec<char>,
    device_name: Vec<char>,
    id: Vec<char>,
}

impl DeviceKey {
    spec fn view_key(&self) -> (Seq<char>, Seq<char>, Seq<char>) {
        (self.name@, self.device_name@, self.id@)
    }
}

/// The key of `d`.
fn key_of(d: &PlaybackOutputDevice) -> (k: DeviceKey)
    ensures
        k.view_key() == device_key(*d),
{
    let name = to_lowercase(d.name.as_str());
    let device_name = to_lowercase(d.device_name.as_str());
    DeviceKey {
        name: chars_of(name.as_str()),
        device_name: chars_of(device_name.as_str()),
        id: chars_of(d.id.as_str()),
    }
}

/// Whether key `a` comes before key `b`.
fn key_less(a: &DeviceKey, b: &DeviceKey) -> (r: bool)
    ensures
        r == key_lt(a.view_key(), b.view_key()),
{
    if text_less(&a.name, &b.name) {
        return true;
    }
    if text_less(&b.name, &a.name) {
        return false;
    }
    proof {
        lemma_text_lt_order(a.name@, b.name@, b.name@);
    }
    if text_less(&a.device_name, &b.device_name) {
        return true;
    }
    if text_less(&b.device_name, &a.device_name) {
        return false;
    }
    proof {
        lemma_text_lt_order(a.device_name@, b.device_name@, b.device_name@);
    }
    text_less(&a.id, &b.id)
}

/// Orders `devices` by name, then by device name, both without regard to case, then by id.
pub fn sort_output_devices(devices: &mut Vec<PlaybackOutputDevice>)
    ensures
        final(devices)@.to_multiset() == old(devices)@.to_multiset(),
        devices_sorted(final(devices)@),
{
    broadcast use vstd::seq_lib::group_to_multiset_ensures;

    let mut sorted: Vec<PlaybackOutputDevice> = Vec::new();
    let mut keys: Vec<DeviceKey> = Vec::new();
    while devices.len() > 0
        invariant
            sorted@.to_multiset().add(devices@.to_multiset()) == old(devices)@.to_multiset(),
            devices_sorted(sorted@),
            keys@.len() == sorted@.len(),
            forall|i: int| 0 <= i < keys@.len() ==> #[trigger] keys@[i].view_key() == device_key(sorted@[i]),
        decreases devices.len(),
    {
        let ghost before = devices@;
        let device = devices.remove(0);
        assert(before.to_multiset() =~= devices@.to_multiset().insert(device)) by {
            vstd::seq_lib::to_multiset_remove(before, 0);
            vstd::seq_lib::to_multiset_contains(before, device);
            assert(before.remove(0) =~= devices@);
        }
        let key = key_of(&device);
        let mut j: usize = 0;
        while j < keys.len() && !key_less(&key, &keys[j])
            invariant
                j <= keys@.len(),
                keys@.len() == sorted@.len(),
                forall|i: int| 0 <= i < keys@.len() ==> #[trigger] keys@[i].view_key() == device_key(sorted@[i]),
                key.view_key() == device_key(device),
                forall|i: int| 0 <= i < j ==> !key_lt(device_key(device), #[trigger] device_key(sorted@[i])),
            decreases keys@.len() - j,
        {
            j = j + 1;
        }
        proof {
            if j < sorted@.len() {
                assert(key_lt(device_key(device), device_key(sorted@[j as int])));
                assert forall|k: int| j <= k < sorted@.len() implies !key_lt(#[trigger] device_key(sorted@[k]), device_key(device)) by {
                    lemma_key_lt_order(device_key(device), device_key(sorted@[j as int]), device_key(sorted@[k]));
                    lemma_key_lt_order(device_key(sorted@[k]), device_key(device), device_key(sorted@[j as int]));
                }
            }
        }
        let ghost old_sorted = sorted@;
        sorted.insert(j, device);
        keys.insert(j, key);
        proof {
            assert(sorted@ == old_sorted.insert(j as int, device));
            vstd::seq_lib::to_multiset_insert(old_sorted, j as int, device);
            assert forall|a: int, b: int| 0 <= a < b < sorted@.len() implies !key_lt(
                device_key(#[trigger] sorted@[b]),
                device_key(#[trigger] sorted@[a]),
            ) by {
                if a < j && b == j {
                } else if a == j && b > j {
                    assert(sorted@[b] == old_sorted[b - 1]);
                } else if a < j && b > j {
                    assert(sorted@[b] == old_sorted[b - 1]);
                    assert(sorted@[a] == old_sorted[a]);
                } else if b < j {
                    assert(sorted@[b] == old_sorted[b]);
                    assert(sorted@[a] == old_sorted[a]);
                } else {
                    assert(sorted@[b] == old_sorted[b - 1]);
                    assert(sorted@[a] == old_sorted[a - 1]);
                }
            }
            assert forall|i: int| 0 <= i < keys@.len() implies #[trigger] keys@[i].view_key() == device_key(sorted@[i]) by {
                if i > j {
                    assert(sorted@[i] == old_sorted[i - 1]);
                }
            }
        }
    }
    assert(devices@.to_multiset() =~= vstd::multiset::Multiset::<PlaybackOutputDevice>::empty()) by {
        assert(devices@ =~= Seq::<PlaybackOutputDevice>::empty());
    }
    *devices = sorted;
}

} // verus!
