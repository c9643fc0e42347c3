//! What becomes of a client's input, told of the operations from the outside: whose packets
//! count, what they inject, who is in control, and what the client sees of the cursor.

use vstd::prelude::*;
use crate::input::{
    credential_of, input_packet_client_id, input_packet_is_neutral, input_seq_is_newer,
    ActiveInputClient, CapturedCursor, ControllerState, CursorMessage,     CursorVersionCursor, Injection, InputBackend, InputCredential, InputPacket, InputRuntime,
    InputRuntimeInner, KeyboardStateInput, MouseAbsoluteInput, MouseButtonsInput,
    MouseRelativeInput, MouseWheelInput, PacketEffect, RegisteredInputClient, RuntimeView,
    TextInputRateLimiter, INPUT_CREDENTIAL_BYTES,
};
use crate::input_backend::SelectedInput;
use crate::keyboard::{
    for_each_keyboard_transition, is_pressed, keyboard_state_contains, nothing_pressed,
    pressed_modifiers,
};
use crate::keys::{KeyboardKey, KEYBOARD_STATE_BYTES};
use crate::net::{IpAddress, MediaAddr};
use crate::pointer::{
    button_transitions, clamp_stream_coord, linux_button_code, normalized_to_stream_coord,
    WheelAccumulator,
};
use crate::cursor::{bgra_to_rgba_premultiplied, crop_cursor_to_opaque, estimate_cursor_hotspot, fit_cursor_shape_to_payload_budget, CroppedCursor, CursorShape};
use crate::input_cursor::cursor_is_readable;
use crate::warp::WarpDetector;

verus! {

/// That a client behind a tunnel is registered with this credential.
pub open spec fn tunnelled(v: RuntimeView, id: u32, given: InputCredential) -> bool {
    &&& v.clients.contains_key(id)
    &&& v.clients[id] matches ActiveInputClient::Tunnel { credential, .. } && credential.bytes@
        == given.bytes@
}

/// That a client on the network is registered with this credential and address.
pub open spec fn networked(v: RuntimeView, id: u32, given: InputCredential, ip: IpAddress) -> bool {
    &&& v.clients.contains_key(id)
    &&& v.clients[id] matches ActiveInputClient::Direct { credential, source_ip, .. }
        && credential.bytes@ == given.bytes@ && source_ip == ip
}

/// That a packet is none that the client has sent before, nor one that came too late: its number
/// lies up to half the range ahead of the last.
pub open spec fn fresh(v: RuntimeView, id: u32, seq: u16) -> bool {
    v.inner.last_seq.contains_key(id) ==> {
        let ahead = (seq - v.inner.last_seq[id] + 0x10000) % 0x10000;
        0 < ahead < 0x8000
    }
}

/// That a client's input reaches the devices: there are some, and nobody else is in control.
pub open spec fn in_reach(v: RuntimeView, id: u32) -> bool {
    &&& v.inner.backend != InputBackend::Unavailable
    &&& v.inner.controller_id matches Some(owner) ==> owner == id
}

/// That some injections move nothing.
pub open spec fn only_presses(injections: Seq<Injection>) -> bool {
    forall|i: int|
        0 <= i < injections.len() ==> #[trigger] injections[i] is Button || injections[i] is Key
}

proof fn lemma_releases_only_press(v: crate::input::InnerView, id: u32, next: u8)
    ensures
        only_presses(v.activate_out(id)),
        only_presses(v.button_out(next)),
        forall|i: int|
            0 <= i < v.button_out(next).len() ==> #[trigger] v.button_out(next)[i] is Button,
{
}

proof fn lemma_only_presses_concat(a: Seq<Injection>, b: Seq<Injection>)
    requires
        only_presses(a),
        only_presses(b),
    ensures
        only_presses(a + b),
{
    assert forall|i: int| 0 <= i < (a + b).len() implies #[trigger] (a + b)[i] is Button || (a
        + b)[i] is Key by {
        if i < a.len() {
            assert((a + b)[i] == a[i]);
        } else {
            assert((a + b)[i] == b[i - a.len()]);
        }
    }
}

/// What a packet leads to that counts.
pub open spec fn counted(before: RuntimeView, after: RuntimeView, id: u32, seq: u16, buttons: u8) -> bool {
    &&& after.inner.controller_id == Some(id)
    &&& after.active_controller_id == id
    &&& after.inner.last_seq.contains_key(id) && after.inner.last_seq[id] == seq
    &&& after.inner.button_mask == buttons
    &&& before.inner.controller_id == Some(id) ==> after.inner.keyboard == before.inner.keyboard
    &&& forall|other: u32|
        other != id ==> after.clients.contains_key(other) == before.clients.contains_key(other)
}

/// The pointer goes where the packet says, each coordinate to its own axis, behind the changes of
/// the buttons, and nowhere else.
pub proof fn pointers_go_where_they_are_sent(
    r: &mut InputRuntime,
    seq: u16,
    credential: InputCredential,
    p: MouseAbsoluteInput,
    effect: PacketEffect,
)
    requires
        call_ensures(
            InputRuntime::handle_tunnel_input_packet,
            (r, seq, credential, InputPacket::MouseAbsolute(p), p.client_id),
            effect,
        ),
        tunnelled(old(r)@, p.client_id, credential),
        fresh(old(r)@, p.client_id, seq),
        in_reach(old(r)@, p.client_id),
    ensures
        effect.injections@.len() > 0,
        effect.injections@.last() == (Injection::MoveAbsolute { x: p.x, y: p.y }),
        only_presses(effect.injections@.drop_last()),
        counted(old(r)@, final(r)@, p.client_id, seq, p.buttons),
{
    let v = old(r)@;
    let packet = InputPacket::MouseAbsolute(p);
    lemma_motion_comes_last(v, packet, p.client_id, p.buttons);
}

proof fn lemma_motion_comes_last(v: RuntimeView, packet: InputPacket, id: u32, buttons: u8)
    requires
        v.inner.available(),
        packet is MouseAbsolute || packet is MouseRelative || packet is MouseWheel,
        packet matches InputPacket::MouseAbsolute(p) ==> p.buttons == buttons,
        packet matches InputPacket::MouseRelative(p) ==> p.buttons == buttons,
        packet matches InputPacket::MouseWheel(p) ==> p.buttons == buttons,
    ensures
        ({
            let out = v.inner.activate_out(id) + v.inner.activated(id).drive_out(packet);
            out.len() > 0 && only_presses(out.drop_last())
        }),
{
    let a = v.inner.activate_out(id);
    let b = v.inner.activated(id).button_out(buttons);
    let out = a + v.inner.activated(id).drive_out(packet);
    lemma_releases_only_press(v.inner, id, buttons);
    lemma_releases_only_press(v.inner.activated(id), id, buttons);
    lemma_only_presses_concat(a, b);
    assert(out.drop_last() =~= a + b);
}

/// So it does for a client on the network, whose media goes from then on to where the packet came
/// from.
pub proof fn networked_pointers_go_where_they_are_sent(
    r: &mut InputRuntime,
    seq: u16,
    credential: InputCredential,
    p: MouseAbsoluteInput,
    src: MediaAddr,
    effect: PacketEffect,
)
    requires
        call_ensures(
            InputRuntime::handle_input_packet,
            (r, seq, credential, InputPacket::MouseAbsolute(p), src),
            effect,
        ),
        networked(old(r)@, p.client_id, credential, src.ip),
        fresh(old(r)@, p.client_id, seq),
        in_reach(old(r)@, p.client_id),
    ensures
        effect.injections@.len() > 0,
        effect.injections@.last() == (Injection::MoveAbsolute { x: p.x, y: p.y }),
        only_presses(effect.injections@.drop_last()),
        counted(old(r)@, final(r)@, p.client_id, seq, p.buttons),
        effect.media_moved == (if old(r)@.clients[p.client_id]->media_dest == src {
            None
        } else {
            Some(src)
        }),
        final(r)@.clients[p.client_id] matches ActiveInputClient::Direct {
            media_dest,
            source_ip,
            credential: kept,
            ..
        } && media_dest == src && source_ip == src.ip && kept.bytes@ == credential.bytes@,
{
    lemma_motion_comes_last(old(r)@, InputPacket::MouseAbsolute(p), p.client_id, p.buttons);
}

/// Distances keep their axes and their signs.
pub proof fn distances_keep_their_axes(
    r: &mut InputRuntime,
    seq: u16,
    credential: InputCredential,
    p: MouseRelativeInput,
    effect: PacketEffect,
)
    requires
        call_ensures(
            InputRuntime::handle_tunnel_input_packet,
            (r, seq, credential, InputPacket::MouseRelative(p), p.client_id),
            effect,
        ),
        tunnelled(old(r)@, p.client_id, credential),
        fresh(old(r)@, p.client_id, seq),
        in_reach(old(r)@, p.client_id),
    ensures
        effect.injections@.len() > 0,
        effect.injections@.last() == (Injection::MoveRelative { dx: p.dx, dy: p.dy }),
        only_presses(effect.injections@.drop_last()),
        counted(old(r)@, final(r)@, p.client_id, seq, p.buttons),
{
    lemma_motion_comes_last(old(r)@, InputPacket::MouseRelative(p), p.client_id, p.buttons);
}

/// And so do turns of the wheel.
pub proof fn wheels_keep_their_axes(
    r: &mut InputRuntime,
    seq: u16,
    credential: InputCredential,
    p: MouseWheelInput,
    effect: PacketEffect,
)
    requires
        call_ensures(
            InputRuntime::handle_tunnel_input_packet,
            (r, seq, credential, InputPacket::MouseWheel(p), p.client_id),
            effect,
        ),
        tunnelled(old(r)@, p.client_id, credential),
        fresh(old(r)@, p.client_id, seq),
        in_reach(old(r)@, p.client_id),
    ensures
        effect.injections@.len() > 0,
        effect.injections@.last() == (Injection::Scroll { delta_x: p.delta_x, delta_y: p.delta_y }),
        only_presses(effect.injections@.drop_last()),
        counted(old(r)@, final(r)@, p.client_id, seq, p.buttons),
{
    lemma_motion_comes_last(old(r)@, InputPacket::MouseWheel(p), p.client_id, p.buttons);
}

/// The button of a bit of the mask.
pub open spec fn button_of(bit: u8) -> u32 {
    if bit == 1 {
        1
    } else if bit == 2 {
        3
    } else if bit == 4 {
        2
    } else if bit == 8 {
        8
    } else {
        9
    }
}

/// That a byte is a bit of the mask: primary, secondary, middle, and the two extra ones.
pub open spec fn is_button_bit(bit: u8) -> bool {
    bit == 1 || bit == 2 || bit == 4 || bit == 8 || bit == 16
}

/// A button goes down exactly when its bit comes, and up exactly when it goes.
pub proof fn buttons_follow_their_bits(prev: u8, next: u8, out: Vec<(u32, bool)>, bit: u8)
    requires
        call_ensures(button_transitions, (prev, next), out),
        is_button_bit(bit),
    ensures
        out@.contains((button_of(bit), true)) <==> prev & bit == 0 && next & bit != 0,
        out@.contains((button_of(bit), false)) <==> prev & bit != 0 && next & bit == 0,
        out@.len() <= 5,
        forall|i: int| 0 <= i < out@.len() ==> exists|b: u8|
            is_button_bit(b) && button_of(b) == (#[trigger] out@[i]).0,
{
    lemma_button_events(prev, next);
    lemma_bit_changes(prev, next, 1);
    lemma_bit_changes(prev, next, 2);
    lemma_bit_changes(prev, next, 4);
    lemma_bit_changes(prev, next, 8);
    lemma_bit_changes(prev, next, 16);
    let all = crate::pointer::button_events(prev, next, 5);
    assert forall|i: int| 0 <= i < all.len() implies exists|b: u8|
        is_button_bit(b) && button_of(b) == (#[trigger] all[i]).0 by {
        let n = all[i].0;
        if n == 1 {
            assert(is_button_bit(1) && button_of(1) == n);
        } else if n == 2 {
            assert(is_button_bit(4) && button_of(4) == n);
        } else if n == 3 {
            assert(is_button_bit(2) && button_of(2) == n);
        } else if n == 8 {
            assert(is_button_bit(8) && button_of(8) == n);
        } else {
            assert(is_button_bit(16) && button_of(16) == n);
        }
    }
}

proof fn lemma_bit_changes(prev: u8, next: u8, bit: u8)
    requires
        is_button_bit(bit),
    ensures
        (prev ^ next) & bit != 0 <==> (prev & bit == 0) != (next & bit == 0),
{
    assert((prev ^ next) & 1 != 0 <==> (prev & 1 == 0) != (next & 1 == 0)) by (bit_vector);
    assert((prev ^ next) & 2 != 0 <==> (prev & 2 == 0) != (next & 2 == 0)) by (bit_vector);
    assert((prev ^ next) & 4 != 0 <==> (prev & 4 == 0) != (next & 4 == 0)) by (bit_vector);
    assert((prev ^ next) & 8 != 0 <==> (prev & 8 == 0) != (next & 8 == 0)) by (bit_vector);
    assert((prev ^ next) & 16 != 0 <==> (prev & 16 == 0) != (next & 16 == 0)) by (bit_vector);
}

proof fn lemma_push_has<T>(list: Seq<T>, last: T, item: T)
    ensures
        list.push(last).contains(item) <==> list.contains(item) || item == last,
{
    let more = list.push(last);
    if list.contains(item) {
        let i = list.index_of(item);
        assert(more[i] == item);
    }
    assert(more[list.len() as int] == last);
    if more.contains(item) && item != last {
        let i = more.index_of(item);
        assert(list[i] == item);
    }
}

proof fn lemma_button_events(prev: u8, next: u8)
    ensures
        ({
            let all = crate::pointer::button_events(prev, next, 5);
            &&& all.len() <= 5
            &&& forall|i: int|
                0 <= i < all.len() ==> {
                    let n = (#[trigger] all[i]).0;
                    n == 1 || n == 2 || n == 3 || n == 8 || n == 9
                }
            &&& forall|down: bool| #[trigger]
                all.contains((1u32, down)) <==> (prev ^ next) & 1 != 0 && down == (next & 1 != 0)
            &&& forall|down: bool| #[trigger]
                all.contains((3u32, down)) <==> (prev ^ next) & 2 != 0 && down == (next & 2 != 0)
            &&& forall|down: bool| #[trigger]
                all.contains((2u32, down)) <==> (prev ^ next) & 4 != 0 && down == (next & 4 != 0)
            &&& forall|down: bool| #[trigger]
                all.contains((8u32, down)) <==> (prev ^ next) & 8 != 0 && down == (next & 8 != 0)
            &&& forall|down: bool| #[trigger]
                all.contains((9u32, down)) <==> (prev ^ next) & 16 != 0 && down == (next & 16 != 0)
        }),
{
    reveal_with_fuel(crate::pointer::button_events, 6);
    let e = |n: int| crate::pointer::button_events(prev, next, n);
    let table = crate::pointer::button_table();
    assert(table[0] == (1u8, 1u32));
    assert(table[1] == (4u8, 2u32));
    assert(table[2] == (2u8, 3u32));
    assert(table[3] == (8u8, 8u32));
    assert(table[4] == (16u8, 9u32));
    assert forall|n: u32, down: bool| #[trigger]
        crate::pointer::button_events(prev, next, 5).contains((n, down)) <==> {
            ||| n == 1 && (prev ^ next) & 1 != 0 && down == (next & 1 != 0)
            ||| n == 2 && (prev ^ next) & 4 != 0 && down == (next & 4 != 0)
            ||| n == 3 && (prev ^ next) & 2 != 0 && down == (next & 2 != 0)
            ||| n == 8 && (prev ^ next) & 8 != 0 && down == (next & 8 != 0)
            ||| n == 9 && (prev ^ next) & 16 != 0 && down == (next & 16 != 0)
        } by {
        lemma_push_has(e(0), (1u32, next & 1 != 0), (n, down));
        lemma_push_has(e(1), (2u32, next & 4 != 0), (n, down));
        lemma_push_has(e(2), (3u32, next & 2 != 0), (n, down));
        lemma_push_has(e(3), (8u32, next & 8 != 0), (n, down));
        lemma_push_has(e(4), (9u32, next & 16 != 0), (n, down));
        assert(!e(0).contains((n, down)));
    }
    let all = e(5);
    assert forall|i: int| 0 <= i < all.len() implies {
        let n = (#[trigger] all[i]).0;
        n == 1 || n == 2 || n == 3 || n == 8 || n == 9
    } by {
        assert(all.contains((all[i].0, all[i].1)));
    }
}

/// A packet of buttons presses and lets go of exactly the buttons that change, once its sender is
/// in control.
pub proof fn button_packets_press_buttons(
    r: &mut InputRuntime,
    seq: u16,
    credential: InputCredential,
    p: MouseButtonsInput,
    effect: PacketEffect,
    changes: Vec<(u32, bool)>,
)
    requires
        call_ensures(
            InputRuntime::handle_tunnel_input_packet,
            (r, seq, credential, InputPacket::MouseButtons(p), p.client_id),
            effect,
        ),
        call_ensures(button_transitions, (old(r)@.inner.button_mask, p.buttons), changes),
        tunnelled(old(r)@, p.client_id, credential),
        fresh(old(r)@, p.client_id, seq),
        old(r)@.inner.backend != InputBackend::Unavailable,
        old(r)@.inner.controller_id == Some(p.client_id),
    ensures
        effect.injections@.len() == changes@.len(),
        forall|i: int|
            0 <= i < changes@.len() ==> #[trigger] effect.injections@[i] == (Injection::Button {
                button: changes@[i].0,
                pressed: changes@[i].1,
            }),
        counted(old(r)@, final(r)@, p.client_id, seq, p.buttons),
{
}

/// A packet of keys presses and lets go of exactly the keys that change.
pub proof fn key_packets_press_keys(
    r: &mut InputRuntime,
    seq: u16,
    credential: InputCredential,
    p: KeyboardStateInput,
    effect: PacketEffect,
    key: KeyboardKey,
    down: bool,
)
    requires
        call_ensures(
            InputRuntime::handle_tunnel_input_packet,
            (r, seq, credential, InputPacket::KeyboardState(p), p.client_id),
            effect,
        ),
        tunnelled(old(r)@, p.client_id, credential),
        fresh(old(r)@, p.client_id, seq),
        old(r)@.inner.backend != InputBackend::Unavailable,
        old(r)@.inner.controller_id == Some(p.client_id),
    ensures
        effect.injections@.contains(Injection::Key { key, down }) <==> is_pressed(
            old(r)@.inner.keyboard,
            key,
        ) != is_pressed(p.pressed@, key) && down == is_pressed(p.pressed@, key),
        forall|i: int| 0 <= i < effect.injections@.len() ==> #[trigger] effect.injections@[i] is Key,
        final(r)@.inner.keyboard == p.pressed@,
        final(r)@.inner.button_mask == old(r)@.inner.button_mask,
        final(r)@.inner.last_seq[p.client_id] == seq,
{
    let prev = old(r)@.inner.keyboard;
    let next = p.pressed@;
    crate::keyboard::key_events_are_the_difference(prev, next, key, down);
    let events = crate::keyboard::key_events(prev, next);
    let out = effect.injections@;
    assert(out =~= old(r)@.inner.key_out(next));
    if events.contains((key, down)) {
        let i = events.index_of((key, down));
        assert(out[i] == (Injection::Key { key, down }));
    }
    if out.contains(Injection::Key { key, down }) {
        let i = out.index_of(Injection::Key { key, down });
        assert(events[i] == (key, down));
    }
}

/// Nothing comes of a packet that its client did not send: of one that is not registered, of one
/// with another credential, of one that names another client than its tunnel's.
pub proof fn strangers_inject_nothing(
    r: &mut InputRuntime,
    seq: u16,
    credential: InputCredential,
    packet: InputPacket,
    id: u32,
    effect: PacketEffect,
)
    requires
        call_ensures(
            InputRuntime::handle_tunnel_input_packet,
            (r, seq, credential, packet, id),
            effect,
        ),
        !tunnelled(old(r)@, id, credential) || packet.sender() != id,
    ensures
        final(r)@ == old(r)@,
        effect.injections@.len() == 0,
        effect.media_moved is None,
{
}

/// Nor of one over the network that does not come from the client's own address.
pub proof fn foreign_addresses_inject_nothing(
    r: &mut InputRuntime,
    seq: u16,
    credential: InputCredential,
    packet: InputPacket,
    src: MediaAddr,
    effect: PacketEffect,
)
    requires
        call_ensures(
            InputRuntime::handle_input_packet,
            (r, seq, credential, packet, src),
            effect,
        ),
        !networked(old(r)@, packet.sender(), credential, src.ip),
    ensures
        final(r)@ == old(r)@,
        effect.injections@.len() == 0,
        effect.media_moved is None,
{
}

/// Nor of one that is not newer than the last.
pub proof fn stale_packets_inject_nothing(
    r: &mut InputRuntime,
    seq: u16,
    credential: InputCredential,
    packet: InputPacket,
    src: MediaAddr,
    effect: PacketEffect,
)
    requires
        call_ensures(
            InputRuntime::handle_input_packet,
            (r, seq, credential, packet, src),
            effect,
        ),
        !fresh(old(r)@, packet.sender(), seq),
    ensures
        final(r)@ == old(r)@,
        effect.injections@.len() == 0,
        effect.media_moved is None,
{
}

/// A packet of a client that is not in control moves nothing while somebody else is, or while
/// there are no devices; all that is kept of it is its number and where it came from.
pub proof fn bystanders_inject_nothing(
    r: &mut InputRuntime,
    seq: u16,
    credential: InputCredential,
    packet: InputPacket,
    id: u32,
    effect: PacketEffect,
)
    requires
        call_ensures(
            InputRuntime::handle_tunnel_input_packet,
            (r, seq, credential, packet, id),
            effect,
        ),
        !in_reach(old(r)@, id),
    ensures
        effect.injections@.len() == 0,
        final(r)@.inner.controller_id == old(r)@.inner.controller_id,
        final(r)@.inner.button_mask == old(r)@.inner.button_mask,
        final(r)@.inner.keyboard == old(r)@.inner.keyboard,
        final(r)@.clients == old(r)@.clients,
{
}

/// A packet names its client and is without effect where it presses nothing and moves nothing.
pub proof fn packets_name_their_clients(packet: InputPacket, id: u32, neutral: bool)
    requires
        call_ensures(input_packet_client_id, (&packet,), id),
        call_ensures(input_packet_is_neutral, (&packet,), neutral),
    ensures
        match packet {
            InputPacket::MouseAbsolute(p) => id == p.client_id && !neutral,
            InputPacket::MouseRelative(p) => id == p.client_id && !neutral,
            InputPacket::MouseWheel(p) => id == p.client_id && !neutral,
            InputPacket::MouseButtons(p) => id == p.client_id && (neutral <==> p.buttons == 0),
            InputPacket::KeyboardState(p) => id == p.client_id && (neutral <==> forall|i: int|
                0 <= i < p.pressed@.len() ==> p.pressed@[i] == 0),
        },
{
}

/// A number is newer if it is ahead of the last by less than half the range, around its end too.
pub proof fn newer_means_ahead(last: u16, steps: u16, seq: u16, newer: bool)
    requires
        call_ensures(input_seq_is_newer, (seq, last), newer),
        seq == (last + steps) % 0x10000,
    ensures
        newer <==> 0 < steps < 0x8000,
{
}

/// A client that registers is known by its number and credential and by the way that it comes;
/// whoever else is registered stays so, and nobody's control changes.
pub proof fn registering_makes_known(
    r: &mut InputRuntime,
    id: u32,
    credential: InputCredential,
    ip: IpAddress,
    dest: MediaAddr,
    now: u64,
    token: RegisteredInputClient,
    other: u32,
)
    requires
        call_ensures(
            InputRuntime::register_direct_client,
            (r, id, credential, ip, dest, now),
            token,
        ),
        other != id,
    ensures
        token.client_id == id,
        networked(final(r)@, id, credential, ip),
        final(r)@.clients[id]->media_dest == dest,
        final(r)@.clients[id].rate().window_started == now,
        final(r)@.clients[id].rate().bytes == 0,
        final(r)@.clients[id].rate().messages == 0,
        final(r)@.clients.contains_key(other) == old(r)@.clients.contains_key(other),
        final(r)@.clients[other] == old(r)@.clients[other],
        final(r)@.inner == old(r)@.inner,
        final(r)@.active_controller_id == old(r)@.active_controller_id,
{
}

/// The same for one behind a tunnel.
pub proof fn registering_a_tunnel_makes_known(
    r: &mut InputRuntime,
    id: u32,
    credential: InputCredential,
    now: u64,
    token: RegisteredInputClient,
    other: u32,
)
    requires
        call_ensures(InputRuntime::register_tunnel_client, (r, id, credential, now), token),
        other != id,
    ensures
        token.client_id == id,
        tunnelled(final(r)@, id, credential),
        final(r)@.clients[id].rate().window_started == now,
        final(r)@.clients.contains_key(other) == old(r)@.clients.contains_key(other),
        final(r)@.clients[other] == old(r)@.clients[other],
        final(r)@.inner == old(r)@.inner,
{
}

/// Ending a registration takes out that client and no other. Where it was in control, nobody is,
/// nothing is held any more, and every key and button that it held is let go.
pub proof fn unregistering_takes_one_out(
    r: &mut InputRuntime,
    token: RegisteredInputClient,
    out: Vec<Injection>,
    other: u32,
)
    requires
        call_ensures(InputRuntime::unregister_client, (r, token), out),
        other != token.client_id,
    ensures
        !final(r)@.clients.contains_key(token.client_id),
        !final(r)@.inner.last_seq.contains_key(token.client_id),
        final(r)@.clients.contains_key(other) == old(r)@.clients.contains_key(other),
        final(r)@.clients[other] == old(r)@.clients[other],
        old(r)@.inner.controller_id == Some(token.client_id) ==> {
            &&& final(r)@.inner.controller_id is None
            &&& final(r)@.active_controller_id == 0
            &&& final(r)@.inner.button_mask == 0
            &&& nothing_pressed(final(r)@.inner.keyboard)
        },
        old(r)@.inner.controller_id != Some(token.client_id) ==> {
            &&& final(r)@.inner.controller_id == old(r)@.inner.controller_id
            &&& final(r)@.inner.button_mask == old(r)@.inner.button_mask
            &&& final(r)@.inner.keyboard == old(r)@.inner.keyboard
            &&& out@.len() == 0
        },
{
}

/// Whoever asks for control has it, from whoever had it, with nothing held; without devices nobody
/// has it.
pub proof fn control_goes_to_whom_asks(
    r: &mut InputRuntime,
    id: u32,
    out: (ControllerState, Vec<Injection>),
)
    requires
        call_ensures(InputRuntime::acquire_control, (r, id), out),
    ensures
        old(r)@.inner.backend != InputBackend::Unavailable ==> {
            &&& out.0 == ControllerState::OwnedByYou
            &&& final(r)@.inner.controller_id == Some(id)
            &&& final(r)@.active_controller_id == id
            &&& final(r)@.inner.button_mask == 0
            &&& nothing_pressed(final(r)@.inner.keyboard)
            &&& only_presses(out.1@)
        },
        old(r)@.inner.backend == InputBackend::Unavailable ==> out.0
            == ControllerState::Unavailable && final(r)@ == old(r)@ && out.1@.len() == 0,
        final(r)@.clients == old(r)@.clients,
{
}

/// What is let go of is what is held, whoever lets go: every button whose bit is set and every
/// key that is pressed is released, and nothing else happens.
pub proof fn letting_go_releases_what_is_held(
    r: &mut InputRuntime,
    id: u32,
    out: (ControllerState, Vec<Injection>),
    bit: u8,
    key: KeyboardKey,
)
    requires
        call_ensures(InputRuntime::release_control, (r, id), out),
        old(r)@.inner.controller_id == Some(id),
        old(r)@.inner.backend != InputBackend::Unavailable,
        is_button_bit(bit),
        old(r)@.inner.keyboard.len() == 16,
    ensures
        final(r)@.inner.controller_id is None,
        final(r)@.active_controller_id == 0,
        final(r)@.inner.button_mask == 0,
        nothing_pressed(final(r)@.inner.keyboard),
        out.0 == ControllerState::Available,
        out.1@.contains(Injection::Button { button: button_of(bit), pressed: false })
            <==> old(r)@.inner.button_mask & bit != 0,
        !out.1@.contains(Injection::Button { button: button_of(bit), pressed: true }),
        out.1@.contains(Injection::Key { key, down: false }) <==> is_pressed(
            old(r)@.inner.keyboard,
            key,
        ),
        !out.1@.contains(Injection::Key { key, down: true }),
        only_presses(out.1@),
{
    let v = old(r)@.inner;
    let none = crate::input::no_keys();
    let a = v.button_out(0);
    let b = v.key_out(none);
    let o = out.1@;
    assert(o == a + b);
    let mask = v.button_mask;
    lemma_button_events(mask, 0);
    lemma_bit_changes(mask, 0, bit);
    let buttons = crate::pointer::button_events(mask, 0, 5);
    let keys = crate::keyboard::key_events(v.keyboard, none);
    assert(0u8 & bit == 0) by (bit_vector);
    crate::keyboard::key_events_are_the_difference(v.keyboard, none, key, false);
    crate::keyboard::key_events_are_the_difference(v.keyboard, none, key, true);
    crate::keys::numbers_are_small(key);
    let shift = (key.number() as int % 8) as u8;
    assert(0u8 & (1u8 << shift) == 0) by (bit_vector);
    assert(!is_pressed(none, key));
    assert forall|down: bool| o.contains(Injection::Button { button: button_of(bit), pressed: down })
        == buttons.contains((button_of(bit), down)) by {
        let item = Injection::Button { button: button_of(bit), pressed: down };
        if buttons.contains((button_of(bit), down)) {
            let i = buttons.index_of((button_of(bit), down));
            assert(a[i] == item);
            assert(o[i] == item);
        }
        if o.contains(item) {
            let i = o.index_of(item);
            if i < a.len() {
                assert(o[i] == a[i]);
                assert(buttons[i] == (button_of(bit), down));
            } else {
                assert(o[i] == b[i - a.len()]);
            }
        }
    }
    assert forall|down: bool| o.contains(Injection::Key { key, down }) == keys.contains(
        (key, down),
    ) by {
        let item = Injection::Key { key, down };
        if keys.contains((key, down)) {
            let i = keys.index_of((key, down));
            assert(b[i] == item);
            assert(o[a.len() + i] == item);
        }
        if o.contains(item) {
            let i = o.index_of(item);
            if i < a.len() {
                assert(o[i] == a[i]);
            } else {
                assert(o[i] == b[i - a.len()]);
                assert(keys[i - a.len()] == (key, down));
            }
        }
    }
}

/// Letting go of control that one does not have changes nothing.
pub proof fn only_the_owner_lets_go(
    r: &mut InputRuntime,
    id: u32,
    out: (ControllerState, Vec<Injection>),
)
    requires
        call_ensures(InputRuntime::release_control, (r, id), out),
        old(r)@.inner.controller_id != Some(id),
    ensures
        final(r)@ == old(r)@,
        out.1@.len() == 0,
{
}

/// Each client sees control as it is: its own, another's, free, or not to be had.
pub proof fn clients_see_who_is_in_control(r: InputRuntime, id: u32, state: ControllerState)
    requires
        call_ensures(InputRuntime::controller_state_for, (&r, id), state),
    ensures
        state == ControllerState::Unavailable <==> r@.inner.backend == InputBackend::Unavailable,
        state == ControllerState::OwnedByYou <==> r@.inner.backend != InputBackend::Unavailable
            && r@.inner.controller_id == Some(id),
        state == ControllerState::Available <==> r@.inner.backend != InputBackend::Unavailable
            && r@.inner.controller_id is None,
        state == ControllerState::OwnedByOther <==> r@.inner.backend != InputBackend::Unavailable
            && (r@.inner.controller_id matches Some(owner) && owner != id),
{
}

/// Numbers of clients count up, so that no two in a row are the same.
pub proof fn client_numbers_are_new(r: &mut InputRuntime, id: u32)
    requires
        call_ensures(InputRuntime::allocate_client_id, (r,), id),
    ensures
        id == old(r)@.next_client_id,
        final(r)@.next_client_id != id,
        id < u32::MAX ==> final(r)@.next_client_id == id + 1,
        final(r)@.inner == old(r)@.inner,
        final(r)@.clients == old(r)@.clients,
{
}

/// A text is typed only for a registered client that is within its rate, on devices that take
/// text, while nobody else is in control; and then always. Texts that are empty, too long or hold
/// a zero are not even counted.
pub proof fn texts_are_typed_for_clients(
    r: &mut InputRuntime,
    id: u32,
    text: &str,
    now: u64,
    out: Option<Vec<Injection>>,
)
    requires
        call_ensures(InputRuntime::handle_text_input, (r, id, text, now), out),
    ensures
        out is Some ==> {
            &&& text@.len() > 0
            &&& !text@.contains('\0')
            &&& old(r)@.clients.contains_key(id)
            &&& old(r)@.inner.capabilities.keyboard && old(r)@.inner.capabilities.text_input
            &&& in_reach(old(r)@, id)
            &&& final(r)@.inner.controller_id == Some(id)
            &&& final(r)@.active_controller_id == id
        },
        text@.len() == 0 || !old(r)@.clients.contains_key(id) ==> final(r)@ == old(r)@,
        out is None ==> final(r)@.inner == old(r)@.inner,
        out is None && text@.len() > 0 && !text@.contains('\0') && old(r)@.clients.contains_key(id)
            && old(r)@.inner.capabilities.keyboard && old(r)@.inner.capabilities.text_input
            && in_reach(old(r)@, id) ==> crate::input::byte_len(text@) > 4096 || !{
            &&& old(r)@.clients[id].rate().rolled(now).messages < 32
            &&& old(r)@.clients[id].rate().rolled(now).bytes + crate::input::byte_len(text@)
                <= 16384
        },
{
}

/// Within a window only so many texts and bytes are let through, and a new window starts empty.
pub proof fn text_rates_are_kept(l: &mut TextInputRateLimiter, bytes: usize, now: u64, ok: bool)
    requires
        call_ensures(TextInputRateLimiter::allow, (l, bytes, now), ok),
    ensures
        now - old(l).window_started >= 1_000_000_000
            ==> final(l).window_started == now,
        now - old(l).window_started < 1_000_000_000 ==> {
            &&& final(l).window_started == old(l).window_started
            &&& ok ==> final(l).bytes == old(l).bytes + bytes && final(l).messages
                == old(l).messages + 1
            &&& !ok ==> *final(l) == *old(l)
        },
        ok ==> final(l).bytes <= 16384 && final(l).messages
            <= 32,
        !ok ==> final(l).messages >= 32 || final(l).bytes
            + bytes > 16384,
{
}

/// A credential is the bytes that were drawn, and two are the same exactly if their bytes are.
pub proof fn credentials_are_their_bytes(
    a: [u8; INPUT_CREDENTIAL_BYTES],
    b: InputCredential,
    out: Option<InputCredential>,
    same: bool,
)
    requires
        call_ensures(credential_of, (Some(a),), out),
        out is Some,
        call_ensures(InputCredential::same, (&out->0, &b), same),
    ensures
        out->0.bytes@ == a@,
        same <==> a@ == b.bytes@,
{
}

/// With a cursor of their own to draw, clients see the cursor as the capture reports it: it shows
/// exactly when it is reported to, in or out of a game.
pub proof fn cursors_show_as_reported(r: &mut InputRuntime, c: &CapturedCursor)
    requires
        call_ensures(InputRuntime::update_cursor, (r, Some(c)), ()),
        old(r)@.inner.capabilities.separate_cursor,
    ensures
        final(r)@.inner.cursor_state.visible == c.visible,
        !c.visible ==> final(r)@.inner.cursor_state.x == c.x && final(r)@.inner.cursor_state.y
            == c.y && !final(r)@.inner.cursor_state.app_grab,
        c.shape_serial != 0 ==> final(r)@.inner.cursor_state.serial == c.shape_serial,
        final(r)@.inner.controller_id == old(r)@.inner.controller_id,
        final(r)@.inner.button_mask == old(r)@.inner.button_mask,
        final(r)@.clients == old(r)@.clients,
        final(r)@.game_mode == old(r)@.game_mode,
{
}

/// A change of what clients see is a new version, and only a change is.
pub proof fn cursor_changes_are_versions(r: &mut InputRuntime, c: Option<&CapturedCursor>)
    requires
        call_ensures(InputRuntime::update_cursor, (r, c), ()),
        old(r)@.inner.capabilities.separate_cursor,
        old(r)@.inner.cursor_state_version < u64::MAX,
        old(r)@.inner.cursor_shape_version < u64::MAX,
    ensures
        final(r)@.inner.cursor_state_version == old(r)@.inner.cursor_state_version + (
        if final(r)@.inner.cursor_state == old(r)@.inner.cursor_state {
            0int
        } else {
            1
        }),
        final(r)@.inner.cursor_shape_version == old(r)@.inner.cursor_shape_version + (
        if final(r)@.inner.cursor_shape == old(r)@.inner.cursor_shape {
            0int
        } else {
            1
        }),
{
}

/// The image that clients get has the serial that was reported; a cursor without borders to trim
/// keeps its place and its own hotspot.
pub proof fn images_carry_their_serial(r: &mut InputRuntime, c: &CapturedCursor)
    requires
        call_ensures(InputRuntime::update_cursor, (r, Some(c)), ()),
        old(r)@.inner.capabilities.separate_cursor,
        c.visible,
        c.width > 0 && c.height > 0 && c.pixels@.len() > 0,
    ensures
        final(r)@.inner.cursor_shape matches Some(s) && s.serial == c.shape_serial,
        final(r)@.inner.cursor_state.serial == c.shape_serial,
        crate::cursor::crop_box(c.pixels@, c.width as int, c.height as int) is None ==> {
            &&& final(r)@.inner.cursor_state.x == c.x
            &&& final(r)@.inner.cursor_state.y == c.y
            &&& c.pixels@.len() <= 65519 && c.width <= 65535 && c.height <= 65535 ==> (
            final(r)@.inner.cursor_shape matches Some(s) && s.width == c.width && s.height
                == c.height)
            &&& c.pixels@.len() <= 65519 && (c.hotspot_x > 0 || c.hotspot_y > 0) && c.hotspot_x
                <= 65535 && c.hotspot_y <= 65535 ==> (
            final(r)@.inner.cursor_shape matches Some(s) && s.hotspot_x == c.hotspot_x
                && s.hotspot_y == c.hotspot_y)
        },
{
}

/// A frame without a cursor hides it while a game is in front, and leaves it as it is on the
/// desktop.
pub proof fn missing_cursors_are_hidden_in_games(r: &mut InputRuntime)
    requires
        call_ensures(InputRuntime::update_cursor, (r, None), ()),
        old(r)@.inner.capabilities.separate_cursor,
    ensures
        old(r)@.game_mode ==> !final(r)@.inner.cursor_state.visible
            && !final(r)@.inner.cursor_state.app_grab && final(r)@.inner.cursor_state.x
            == old(r)@.inner.cursor_state.x && final(r)@.inner.cursor_state.y
            == old(r)@.inner.cursor_state.y,
        !old(r)@.game_mode ==> final(r)@ == old(r)@,
        final(r)@.inner.cursor_shape == old(r)@.inner.cursor_shape,
{
}

/// Without a cursor of their own to draw, clients are told of none.
pub proof fn drawn_cursors_are_not_sent(r: &mut InputRuntime, c: Option<&CapturedCursor>)
    requires
        call_ensures(InputRuntime::update_cursor, (r, c), ()),
        !old(r)@.inner.capabilities.separate_cursor,
    ensures
        final(r)@.inner.cursor_shape is None,
        !final(r)@.inner.cursor_state.visible,
{
}

/// A client gets the image and the state of the cursor as they are now, each exactly where it has
/// not had this version; nothing while nobody is in control.
pub proof fn clients_get_the_current_cursor(
    r: InputRuntime,
    versions: &mut CursorVersionCursor,
    out: Vec<CursorMessage>,
)
    requires
        call_ensures(InputRuntime::cursor_messages, (&r, versions), out),
    ensures
        r@.inner.controller_id is None ==> out@.len() == 0 && *final(versions) == *old(versions),
        r@.inner.controller_id is Some ==> {
            &&& (exists|i: int| 0 <= i < out@.len() && #[trigger] out@[i] is State)
                <==> r@.inner.cursor_state_version > old(versions).state && (
            r@.inner.cursor_state.visible || r@.inner.cursor_state.serial != 0
                || r@.inner.cursor_shape is Some)
            &&& (exists|i: int| 0 <= i < out@.len() && #[trigger] out@[i] is Shape)
                <==> r@.inner.cursor_shape_version > old(versions).shape && (
            r@.inner.cursor_shape matches Some(s) && s.rgba.len() <= 65519)
            &&& final(versions).state >= r@.inner.cursor_state_version
            &&& final(versions).shape >= r@.inner.cursor_shape_version
        },
        forall|i: int|
            0 <= i < out@.len() ==> match #[trigger] out@[i] {
                CursorMessage::State(s) => s == r@.inner.cursor_state,
                CursorMessage::Shape(s) => r@.inner.cursor_shape == Some(s@),
            },
{
    let views = crate::input::message_views(out@);
    assert(views.len() == out@.len());
    assert forall|i: int| 0 <= i < out@.len() implies views[i] == (#[trigger] out@[i])@ by {}
    let shape_sent = r@.inner.controller_id is Some && r@.inner.cursor_shape_version
        > old(versions).shape && (r@.inner.cursor_shape matches Some(s) && s.rgba.len() <= 65519);
    let state_sent = r@.inner.cursor_state_version > old(versions).state && (
    r@.inner.cursor_state.visible || r@.inner.cursor_state.serial != 0
        || r@.inner.cursor_shape is Some);
    if r@.inner.controller_id is Some {
        if shape_sent {
            assert(views[0] == out@[0]@);
            assert(out@[0] is Shape);
            if state_sent {
                assert(views[1] == out@[1]@);
                assert(out@[1] is State);
            }
        } else if state_sent {
            assert(views[0] == out@[0]@);
            assert(out@[0] is State);
        }
    }
}

/// Entering a game changes nothing that clients see; leaving one brings the pointer back.
pub proof fn leaving_games_brings_the_pointer_back(r: &mut InputRuntime, on: bool)
    requires
        call_ensures(InputRuntime::set_game_mode, (r, on), ()),
    ensures
        final(r)@.game_mode == on,
        on || !old(r)@.game_mode ==> final(r)@.inner == old(r)@.inner,
        !on && old(r)@.game_mode ==> final(r)@.inner.cursor_state.visible
            && !final(r)@.inner.cursor_state.app_grab && final(r)@.inner.cursor_state.x
            == old(r)@.inner.cursor_state.x && final(r)@.inner.cursor_state.y
            == old(r)@.inner.cursor_state.y,
        final(r)@.clients == old(r)@.clients,
        final(r)@.inner.controller_id == old(r)@.inner.controller_id,
{
}

/// Ahead of the capture the cursor is put where a command puts its hotspot: on the pixel that lies
/// as far along each side as the command says, to the nearest.
pub proof fn predictions_land_where_sent(i: &mut InputRuntimeInner, x: u16, y: u16)
    requires
        call_ensures(InputRuntimeInner::predict_cursor_absolute, (i, x, y), ()),
        old(i).capabilities.separate_cursor,
        old(i).cursor_state.visible,
        old(i).cursor_shape is None,
        1 < old(i).stream_width <= 0x8000_0000,
        1 < old(i).stream_height <= 0x8000_0000,
    ensures
        final(i)@.cursor_state.visible,
        0 <= final(i)@.cursor_state.x < old(i).stream_width,
        0 <= final(i)@.cursor_state.y < old(i).stream_height,
        2 * (65535 * final(i)@.cursor_state.x - x * (old(i).stream_width - 1)) <= 65535,
        2 * (x * (old(i).stream_width - 1) - 65535 * final(i)@.cursor_state.x) <= 65535,
        2 * (65535 * final(i)@.cursor_state.y - y * (old(i).stream_height - 1)) <= 65535,
        2 * (y * (old(i).stream_height - 1) - 65535 * final(i)@.cursor_state.y) <= 65535,
{
    crate::pointer::stream_coord_is_inside(x, old(i).stream_width);
    crate::pointer::stream_coord_is_inside(y, old(i).stream_height);
}

/// The same for a distance: the hotspot moves by it, as far as the stream goes.
pub proof fn predictions_move_as_sent(i: &mut InputRuntimeInner, dx: i16, dy: i16)
    requires
        call_ensures(InputRuntimeInner::predict_cursor_relative, (i, dx, dy), ()),
        old(i).capabilities.separate_cursor,
        old(i).cursor_state.visible,
        old(i).cursor_shape is None,
        0 <= old(i).cursor_state.x + dx < old(i).stream_width <= 0x8000_0000,
        0 <= old(i).cursor_state.y + dy < old(i).stream_height <= 0x8000_0000,
    ensures
        final(i)@.cursor_state.x == old(i).cursor_state.x + dx,
        final(i)@.cursor_state.y == old(i).cursor_state.y + dy,
        final(i)@.cursor_state.visible,
{
}

/// A normalized coordinate falls on the pixel that lies as far along the side, to the nearest.
pub proof fn coordinates_fall_on_pixels(value: u16, span: u32, out: i32)
    requires
        call_ensures(normalized_to_stream_coord, (value, span), out),
        1 <= span <= 0x8000_0000,
    ensures
        0 <= out < span,
        2 * (65535 * out - value * (span - 1)) <= 65535,
        2 * (value * (span - 1) - 65535 * out) <= 65535,
        value == 0 ==> out == 0,
        value == 65535 ==> out == span - 1,
{
    crate::pointer::stream_coord_is_inside(value, span);
    let scaled = value * (span - 1);
    if span == 1 {
        assert(scaled == 0) by (nonlinear_arith)
            requires
                scaled == value * (span - 1),
                span == 1,
        ;
    }
    if value == 0 {
        assert(scaled == 0) by (nonlinear_arith)
            requires
                scaled == value * (span - 1),
                value == 0,
        ;
    }
    if value == 65535 {
        assert((65535 * (span - 1) + 32767) / 65535 == span - 1) by (nonlinear_arith)
            requires
                span >= 1,
        ;
    }
}

/// A coordinate within the stream stays, and one outside goes to the nearest edge.
pub proof fn clamping_goes_to_the_edge(value: i64, span: u32, out: i32)
    requires
        call_ensures(clamp_stream_coord, (value, span), out),
        1 <= span <= 0x8000_0000,
    ensures
        0 <= out < span,
        0 <= value < span ==> out == value,
        value < 0 ==> out == 0,
        value >= span ==> out == span - 1,
{
}

/// A turn of the wheel comes out in whole steps of 120 units, each axis on its own and with its
/// own sign, and what does not make up a step stays for the next.
pub proof fn wheel_turns_come_out(w: &mut WheelAccumulator, dx: i16, dy: i16, steps: (i16, i16))
    requires
        call_ensures(WheelAccumulator::push_and_take_steps, (w, dx, dy), steps),
        old(w).wf(),
    ensures
        old(w).x_units + dx == steps.0 * 120 + final(w).x_units,
        old(w).y_units + dy == steps.1 * 120 + final(w).y_units,
        -120 < final(w).x_units < 120,
        -120 < final(w).y_units < 120,
        old(w).x_units + dx >= 0 ==> steps.0 >= 0 && final(w).x_units >= 0,
        old(w).x_units + dx <= 0 ==> steps.0 <= 0 && final(w).x_units <= 0,
        old(w).y_units + dy >= 0 ==> steps.1 >= 0 && final(w).y_units >= 0,
        old(w).y_units + dy <= 0 ==> steps.1 <= 0 && final(w).y_units <= 0,
{
    crate::pointer::wheel_loses_nothing(*old(w), dx, dy);
}

/// The kernel's codes of the buttons: left, right, middle, side and extra.
pub proof fn buttons_have_their_codes(button: u32, code: Option<u16>)
    requires
        call_ensures(linux_button_code, (button,), code),
    ensures
        button == button_of(1) ==> code == Some(0x110u16),
        button == button_of(2) ==> code == Some(0x111u16),
        button == button_of(4) ==> code == Some(0x112u16),
        button == button_of(8) ==> code == Some(0x113u16),
        button == button_of(16) ==> code == Some(0x114u16),
        code is Some ==> exists|bit: u8| is_button_bit(bit) && #[trigger] button_of(bit) == button,
{
    assert(button_of(1) == 1 && button_of(2) == 3 && button_of(4) == 2 && button_of(8) == 8
        && button_of(16) == 9);
}

/// The transitions of a keyboard are its changes: each key that comes goes down once, each that
/// goes comes up once.
pub proof fn keys_follow_their_bits(
    prev: [u8; KEYBOARD_STATE_BYTES],
    next: [u8; KEYBOARD_STATE_BYTES],
    out: Vec<(KeyboardKey, bool)>,
    key: KeyboardKey,
    before: bool,
    after: bool,
)
    requires
        call_ensures(for_each_keyboard_transition, (prev, next), out),
        call_ensures(keyboard_state_contains, (&prev, key), before),
        call_ensures(keyboard_state_contains, (&next, key), after),
    ensures
        out@.contains((key, true)) <==> !before && after,
        out@.contains((key, false)) <==> before && !after,
{
    crate::keyboard::key_events_are_the_difference(prev@, next@, key, true);
    crate::keyboard::key_events_are_the_difference(prev@, next@, key, false);
}

/// Other devices start with nobody in control, nothing held and no memory of packets, at the size
/// of the stream; everything that was held is let go on the devices of before.
pub proof fn new_devices_start_clean(
    r: &mut InputRuntime,
    width: u32,
    height: u32,
    out: Vec<Injection>,
)
    requires
        call_ensures(InputRuntime::refresh_backend, (r, width, height), out),
    ensures
        final(r)@.inner.controller_id is None,
        final(r)@.active_controller_id == 0,
        final(r)@.inner.button_mask == 0,
        nothing_pressed(final(r)@.inner.keyboard),
        final(r)@.inner.last_seq == Map::<u32, u16>::empty(),
        final(r)@.inner.stream_width == width,
        final(r)@.inner.stream_height == height,
        final(r)@.inner.cursor_shape is None,
        !final(r)@.inner.cursor_state.visible,
        final(r)@.clients == old(r)@.clients,
        only_presses(out@),
{
}

/// Devices that were chosen are used with what they can do; where none could be had nothing is
/// possible, and the reason is told.
pub proof fn chosen_devices_are_used(r: &mut InputRuntime, next: Result<SelectedInput, String>)
    requires
        call_ensures(InputRuntime::use_backend, (r, next), ()),
    ensures
        next matches Ok(s) ==> final(r)@.inner.backend == s.backend
            && final(r)@.inner.capabilities == s.capabilities && final(r)@.inner.backend_label
            == s.label@,
        next matches Err(e) ==> final(r)@.inner.backend == InputBackend::Unavailable
            && !final(r)@.inner.capabilities.keyboard && !final(r)@.inner.capabilities.mouse_absolute
            && !final(r)@.inner.capabilities.mouse_relative
            && !final(r)@.inner.capabilities.text_input
            && !final(r)@.inner.capabilities.separate_cursor,
        final(r)@.clients == old(r)@.clients,
{
}

/// When the stream stops nobody is in control, nothing is held and no device is left.
pub proof fn stopping_lets_go(r: &mut InputRuntime, out: Vec<Injection>)
    requires
        call_ensures(InputRuntime::clear_for_stop, (r,), out),
    ensures
        final(r)@.inner.controller_id is None,
        final(r)@.active_controller_id == 0,
        final(r)@.inner.button_mask == 0,
        nothing_pressed(final(r)@.inner.keyboard),
        final(r)@.inner.backend == InputBackend::Unavailable,
        !final(r)@.inner.cursor_state.visible,
        only_presses(out@),
{
}

/// A cursor without an image keeps the position that the capture reports and the image of before,
/// and nobody is taken to hold it.
pub proof fn bare_cursors_keep_their_image(r: &mut InputRuntime, c: &CapturedCursor)
    requires
        call_ensures(InputRuntime::update_cursor, (r, Some(c)), ()),
        old(r)@.inner.capabilities.separate_cursor,
        !c.visible || c.width == 0 || c.height == 0 || c.pixels@.len() == 0,
    ensures
        final(r)@.inner.cursor_state.x == c.x,
        final(r)@.inner.cursor_state.y == c.y,
        final(r)@.inner.cursor_state.visible == c.visible,
        !final(r)@.inner.cursor_state.app_grab,
        final(r)@.inner.cursor_shape == old(r)@.inner.cursor_shape,
        c.shape_serial == 0 ==> final(r)@.inner.cursor_state.serial == (
        match old(r)@.inner.cursor_shape {
            Some(s) => s.serial,
            None => 0,
        }),
{
}

/// A cursor that shows is sent without its transparent borders, red first, at a size that a
/// message carries. Its hotspot moves with the borders, or is guessed where none is reported, and
/// its position is that of the image without them.
pub proof fn cursors_show_their_image(
    r: &mut InputRuntime,
    c: &CapturedCursor,
    pixels: &[u8],
    cropped: Option<CroppedCursor>,
    visible: &[u8],
    rgba: Vec<u8>,
    spot: (u32, u32),
    native: CursorShape,
    fit: (CursorShape, bool),
)
    requires
        call_ensures(InputRuntime::update_cursor, (r, Some(c)), ()),
        old(r)@.inner.capabilities.separate_cursor,
        c.visible && c.width > 0 && c.height > 0 && c.pixels@.len() > 0,
        pixels@ == c.pixels@,
        call_ensures(crop_cursor_to_opaque, (pixels, c.width, c.height), cropped),
        visible@ == (match cropped {
            Some(cut) => cut.pixels@,
            None => c.pixels@,
        }),
        call_ensures(bgra_to_rgba_premultiplied, (visible,), rgba),
        native.serial == c.shape_serial,
        native.rgba@ == rgba@,
        cropped matches Some(cut) ==> {
            &&& cut.width <= 65535 && cut.height <= 65535
            &&& native.width == cut.width && native.height == cut.height
            &&& call_ensures(estimate_cursor_hotspot, (visible, cut.width, cut.height), spot)
            &&& c.hotspot_x != 0 || c.hotspot_y != 0 ==> native.hotspot_x == saved(
                c.hotspot_x as int,
                cut.left as int,
            ) && native.hotspot_y == saved(c.hotspot_y as int, cut.top as int)
        },
        cropped is None ==> {
            &&& native.width == c.width && native.height == c.height
            &&& call_ensures(estimate_cursor_hotspot, (visible, c.width, c.height), spot)
            &&& c.hotspot_x != 0 || c.hotspot_y != 0 ==> native.hotspot_x == c.hotspot_x
                && native.hotspot_y == c.hotspot_y
        },
        c.hotspot_x == 0 && c.hotspot_y == 0 ==> native.hotspot_x == spot.0 && native.hotspot_y
            == spot.1,
        call_ensures(fit_cursor_shape_to_payload_budget, (native,), fit),
    ensures
        final(r)@.inner.cursor_shape == Some(fit.0@),
        final(r)@.inner.cursor_state.serial == c.shape_serial,
        final(r)@.inner.cursor_state.app_grab == final(r)@.inner.warp.app_grab,
        cropped is None ==> final(r)@.inner.cursor_state.x == c.x
            && final(r)@.inner.cursor_state.y == c.y,
        cropped matches Some(cut) ==> {
            &&& cut.left <= i32::MAX && c.x + cut.left <= i32::MAX ==> final(r)@.inner.cursor_state.x == c.x + cut.left
            &&& cut.top <= i32::MAX && c.y + cut.top <= i32::MAX ==> final(r)@.inner.cursor_state.y == c.y + cut.top
        },
{
    crate::cursor::crop_box_is_inside(c.pixels@, c.width as int, c.height as int);
    assert(native@ == crate::input_cursor::native_shape(*c));
}

/// What is left of `n` without `m`, and nothing where `m` is more.
pub open spec fn saved(n: int, m: int) -> int {
    if n >= m {
        n - m
    } else {
        0
    }
}

/// A cursor with all the pixels of its size can be shown.
pub proof fn whole_cursors_can_be_shown(c: CapturedCursor, ok: bool)
    requires
        call_ensures(cursor_is_readable, (&c,), ok),
    ensures
        c.width * c.height * 4 <= c.pixels@.len() ==> ok,
        !c.visible ==> ok,
{
    if c.width * c.height * 4 <= c.pixels@.len() {
        crate::input_cursor::whole_cursor_is_readable(c);
    }
}

/// No key has two transitions at once.
pub proof fn keys_change_once(
    prev: [u8; KEYBOARD_STATE_BYTES],
    next: [u8; KEYBOARD_STATE_BYTES],
    out: Vec<(KeyboardKey, bool)>,
    i: int,
    j: int,
)
    requires
        call_ensures(for_each_keyboard_transition, (prev, next), out),
        0 <= i < j < out@.len(),
    ensures
        out@[i].0 != out@[j].0,
{
    lemma_events_once(prev@, next@, 4, i, j);
    crate::keyboard::key_events_are_the_difference(prev@, next@, out@[i].0, out@[i].1);
    crate::keyboard::key_events_are_the_difference(prev@, next@, out@[j].0, out@[j].1);
    assert(out@.contains(out@[i]) && out@.contains(out@[j]));
}

proof fn lemma_phase_once(prev: Seq<u8>, next: Seq<u8>, phase: int, n: int, i: int, j: int)
    requires
        0 <= n <= KeyboardKey::COUNT,
        0 <= i < j < crate::keyboard::phase_events(prev, next, phase, n).len(),
    ensures
        crate::keyboard::phase_events(prev, next, phase, n)[i] != crate::keyboard::phase_events(
            prev,
            next,
            phase,
            n,
        )[j],
    decreases n,
{
    if n > 0 {
        let rest = crate::keyboard::phase_events(prev, next, phase, n - 1);
        if j < rest.len() {
            lemma_phase_once(prev, next, phase, n - 1, i, j);
        } else {
            crate::keyboard::lemma_phase_events(prev, next, phase, n - 1);
            crate::keys::every_number_has_a_key(n - 1);
            assert(rest[i].0.number() < n - 1);
        }
    }
}

proof fn lemma_events_once(prev: Seq<u8>, next: Seq<u8>, phases: int, i: int, j: int)
    requires
        0 <= i < j < crate::keyboard::events_before(prev, next, phases).len(),
    ensures
        crate::keyboard::events_before(prev, next, phases)[i] != crate::keyboard::events_before(
            prev,
            next,
            phases,
        )[j],
    decreases phases,
{
    if phases > 0 {
        let rest = crate::keyboard::events_before(prev, next, phases - 1);
        let last = crate::keyboard::phase_events(
            prev,
            next,
            phases - 1,
            KeyboardKey::COUNT as int,
        );
        crate::keyboard::lemma_phase_events(prev, next, phases - 1, KeyboardKey::COUNT as int);
        if j < rest.len() {
            lemma_events_once(prev, next, phases - 1, i, j);
        } else if i < rest.len() {
            lemma_ranks_below(prev, next, phases - 1, i);
            assert(crate::keyboard::rank(last[j - rest.len()]) == phases - 1);
        } else {
            lemma_phase_once(
                prev,
                next,
                phases - 1,
                KeyboardKey::COUNT as int,
                i - rest.len(),
                j - rest.len(),
            );
        }
    }
}

proof fn lemma_ranks_below(prev: Seq<u8>, next: Seq<u8>, phases: int, i: int)
    requires
        0 <= i < crate::keyboard::events_before(prev, next, phases).len(),
    ensures
        crate::keyboard::rank(crate::keyboard::events_before(prev, next, phases)[i]) < phases,
    decreases phases,
{
    if phases > 0 {
        let rest = crate::keyboard::events_before(prev, next, phases - 1);
        let last = crate::keyboard::phase_events(
            prev,
            next,
            phases - 1,
            KeyboardKey::COUNT as int,
        );
        crate::keyboard::lemma_phase_events(prev, next, phases - 1, KeyboardKey::COUNT as int);
        if i < rest.len() {
            lemma_ranks_below(prev, next, phases - 1, i);
        } else {
            assert(crate::keyboard::rank(last[i - rest.len()]) == phases - 1);
        }
    }
}

/// A chord keeps its meaning: nothing is released behind a press, no ordinary key is released
/// behind a modifier, and no modifier is pressed behind an ordinary key.
pub proof fn chords_keep_their_meaning(
    prev: [u8; KEYBOARD_STATE_BYTES],
    next: [u8; KEYBOARD_STATE_BYTES],
    out: Vec<(KeyboardKey, bool)>,
    i: int,
    j: int,
    first: bool,
    second: bool,
)
    requires
        call_ensures(for_each_keyboard_transition, (prev, next), out),
        0 <= i < j < out@.len(),
        call_ensures(KeyboardKey::is_modifier, (out@[i].0,), first),
        call_ensures(KeyboardKey::is_modifier, (out@[j].0,), second),
    ensures
        out@[i].1 ==> out@[j].1,
        !out@[i].1 && !out@[j].1 && first ==> second,
        out@[i].1 && out@[j].1 && second ==> first,
{
    crate::keyboard::chords_keep_their_order(prev@, next@, i, j);
}

/// A text is typed once, with the modifiers that are held let go before it, the last first, and
/// pressed again behind it; it is at most 4096 bytes long.
pub proof fn texts_are_typed_without_modifiers(
    r: &mut InputRuntime,
    id: u32,
    text: &str,
    now: u64,
    list: Vec<Injection>,
    state: [u8; KEYBOARD_STATE_BYTES],
    held: Vec<KeyboardKey>,
    i: int,
)
    requires
        call_ensures(InputRuntime::handle_text_input, (r, id, text, now), Some(list)),
        old(r)@.inner.controller_id == Some(id),
        state@ == old(r)@.inner.keyboard,
        call_ensures(pressed_modifiers, (&state,), held),
        old(r)@.inner.backend == InputBackend::Windows || old(r)@.inner.backend
            == InputBackend::Macos,
    ensures
        list@.len() == 2 * held@.len() + 1,
        list@[held@.len() as int] is Text,
        0 <= i < held@.len() ==> list@[held@.len() + 1 + i] == (Injection::Key {
            key: held@[i],
            down: true,
        }) && list@[held@.len() - 1 - i] == (Injection::Key { key: held@[i], down: false }),
        crate::input::byte_len(text@) <= 4096,
{
}

/// A cursor that shows is what the detector of held pointers sees, at the position that is sent,
/// and its verdict is sent with it; a cursor that does not show starts the detector anew.
pub proof fn shown_cursors_are_watched(
    r: &mut InputRuntime,
    c: &CapturedCursor,
    w: &mut WarpDetector,
    grab: bool,
)
    requires
        call_ensures(InputRuntime::update_cursor, (r, Some(c)), ()),
        old(r)@.inner.capabilities.separate_cursor,
        *old(w) == old(r)@.inner.warp,
        call_ensures(
            WarpDetector::observe_cursor,
            (w, final(r)@.inner.cursor_state.x, final(r)@.inner.cursor_state.y),
            grab,
        ),
    ensures
        c.visible && c.width > 0 && c.height > 0 && c.pixels@.len() > 0 ==> final(r)@.inner.warp
            == *final(w) && final(r)@.inner.cursor_state.app_grab == grab,
        !c.visible ==> !final(r)@.inner.warp.app_grab && final(r)@.inner.warp.commanded is None
            && final(r)@.inner.warp.enabled == old(r)@.inner.warp.enabled,
{
}

} // verus!
