//! Fixed names of the systemd and cgroup interfaces, as bytes.
use vstd::prelude::*;

verus! {

/// The bytes of `inactive`.
pub open spec fn lit_inactive() -> Seq<u8> {
    seq![105u8, 110u8, 97u8, 99u8, 116u8, 105u8, 118u8, 101u8]
}

pub fn lit_inactive_vec() -> (r: Vec<u8>)
    ensures
        r@ == lit_inactive(),
{
    let r: Vec<u8> = vec![105u8, 110u8, 97u8, 99u8, 116u8, 105u8, 118u8, 101u8];
    assert(r@ =~= lit_inactive());
    r
}

/// The bytes of `dead`.
pub open spec fn lit_dead() -> Seq<u8> {
    seq![100u8, 101u8, 97u8, 100u8]
}

pub fn lit_dead_vec() -> (r: Vec<u8>)
    ensures
        r@ == lit_dead(),
{
    let r: Vec<u8> = vec![100u8, 101u8, 97u8, 100u8];
    assert(r@ =~= lit_dead());
    r
}

/// The bytes of `failed`.
pub open spec fn lit_failed() -> Seq<u8> {
    seq![102u8, 97u8, 105u8, 108u8, 101u8, 100u8]
}

pub fn lit_failed_vec() -> (r: Vec<u8>)
    ensures
        r@ == lit_failed(),
{
    let r: Vec<u8> = vec![102u8, 97u8, 105u8, 108u8, 101u8, 100u8];
    assert(r@ =~= lit_failed());
    r
}

/// The bytes of `active`.
pub open spec fn lit_active() -> Seq<u8> {
    seq![97u8, 99u8, 116u8, 105u8, 118u8, 101u8]
}

pub fn lit_active_vec() -> (r: Vec<u8>)
    ensures
        r@ == lit_active(),
{
    let r: Vec<u8> = vec![97u8, 99u8, 116u8, 105u8, 118u8, 101u8];
    assert(r@ =~= lit_active());
    r
}

/// The bytes of `running`.
pub open spec fn lit_running() -> Seq<u8> {
    seq![114u8, 117u8, 110u8, 110u8, 105u8, 110u8, 103u8]
}

pub fn lit_running_vec() -> (r: Vec<u8>)
    ensures
        r@ == lit_running(),
{
    let r: Vec<u8> = vec![114u8, 117u8, 110u8, 110u8, 105u8, 110u8, 103u8];
    assert(r@ =~= lit_running());
    r
}

/// The bytes of `/user.slice/user-`.
pub open spec fn lit_user_slice_root() -> Seq<u8> {
    seq![47u8, 117u8, 115u8, 101u8, 114u8, 46u8, 115u8, 108u8, 105u8, 99u8, 101u8, 47u8, 117u8, 115u8, 101u8, 114u8, 45u8]
}

pub fn lit_user_slice_root_vec() -> (r: Vec<u8>)
    ensures
        r@ == lit_user_slice_root(),
{
    let r: Vec<u8> = vec![47u8, 117u8, 115u8, 101u8, 114u8, 46u8, 115u8, 108u8, 105u8, 99u8, 101u8, 47u8, 117u8, 115u8, 101u8, 114u8, 45u8];
    assert(r@ =~= lit_user_slice_root());
    r
}

/// The bytes of `.slice/`.
pub open spec fn lit_slice_dir() -> Seq<u8> {
    seq![46u8, 115u8, 108u8, 105u8, 99u8, 101u8, 47u8]
}

pub fn lit_slice_dir_vec() -> (r: Vec<u8>)
    ensures
        r@ == lit_slice_dir(),
{
    let r: Vec<u8> = vec![46u8, 115u8, 108u8, 105u8, 99u8, 101u8, 47u8];
    assert(r@ =~= lit_slice_dir());
    r
}

/// The bytes of `.slice`.
pub open spec fn lit_slice_suffix() -> Seq<u8> {
    seq![46u8, 115u8, 108u8, 105u8, 99u8, 101u8]
}

pub fn lit_slice_suffix_vec() -> (r: Vec<u8>)
    ensures
        r@ == lit_slice_suffix(),
{
    let r: Vec<u8> = vec![46u8, 115u8, 108u8, 105u8, 99u8, 101u8];
    assert(r@ =~= lit_slice_suffix());
    r
}

/// The bytes of `user-`.
pub open spec fn lit_user_dash() -> Seq<u8> {
    seq![117u8, 115u8, 101u8, 114u8, 45u8]
}

pub fn lit_user_dash_vec() -> (r: Vec<u8>)
    ensures
        r@ == lit_user_dash(),
{
    let r: Vec<u8> = vec![117u8, 115u8, 101u8, 114u8, 45u8];
    assert(r@ =~= lit_user_dash());
    r
}

/// The bytes of `niralis-payload-`.
pub open spec fn lit_payload_prefix() -> Seq<u8> {
    seq![110u8, 105u8, 114u8, 97u8, 108u8, 105u8, 115u8, 45u8, 112u8, 97u8, 121u8, 108u8, 111u8, 97u8, 100u8, 45u8]
}

pub fn lit_payload_prefix_vec() -> (r: Vec<u8>)
    ensures
        r@ == lit_payload_prefix(),
{
    let r: Vec<u8> = vec![110u8, 105u8, 114u8, 97u8, 108u8, 105u8, 115u8, 45u8, 112u8, 97u8, 121u8, 108u8, 111u8, 97u8, 100u8, 45u8];
    assert(r@ =~= lit_payload_prefix());
    r
}

/// The bytes of `.scope`.
pub open spec fn lit_scope_suffix() -> Seq<u8> {
    seq![46u8, 115u8, 99u8, 111u8, 112u8, 101u8]
}

pub fn lit_scope_suffix_vec() -> (r: Vec<u8>)
    ensures
        r@ == lit_scope_suffix(),
{
    let r: Vec<u8> = vec![46u8, 115u8, 99u8, 111u8, 112u8, 101u8];
    assert(r@ =~= lit_scope_suffix());
    r
}

/// The bytes of `populated`.
pub open spec fn lit_populated() -> Seq<u8> {
    seq![112u8, 111u8, 112u8, 117u8, 108u8, 97u8, 116u8, 101u8, 100u8]
}

pub fn lit_populated_vec() -> (r: Vec<u8>)
    ensures
        r@ == lit_populated(),
{
    let r: Vec<u8> = vec![112u8, 111u8, 112u8, 117u8, 108u8, 97u8, 116u8, 101u8, 100u8];
    assert(r@ =~= lit_populated());
    r
}

/// The bytes of `0::`.
pub open spec fn lit_unified_prefix() -> Seq<u8> {
    seq![48u8, 58u8, 58u8]
}

pub fn lit_unified_prefix_vec() -> (r: Vec<u8>)
    ensures
        r@ == lit_unified_prefix(),
{
    let r: Vec<u8> = vec![48u8, 58u8, 58u8];
    assert(r@ =~= lit_unified_prefix());
    r
}

/// The bytes of `/sys/fs/cgroup`.
pub open spec fn lit_cgroup_root() -> Seq<u8> {
    seq![47u8, 115u8, 121u8, 115u8, 47u8, 102u8, 115u8, 47u8, 99u8, 103u8, 114u8, 111u8, 117u8, 112u8]
}

pub fn lit_cgroup_root_vec() -> (r: Vec<u8>)
    ensures
        r@ == lit_cgroup_root(),
{
    let r: Vec<u8> = vec![47u8, 115u8, 121u8, 115u8, 47u8, 102u8, 115u8, 47u8, 99u8, 103u8, 114u8, 111u8, 117u8, 112u8];
    assert(r@ =~= lit_cgroup_root());
    r
}

/// The bytes of `cgroup.procs`.
pub open spec fn lit_cgroup_procs() -> Seq<u8> {
    seq![99u8, 103u8, 114u8, 111u8, 117u8, 112u8, 46u8, 112u8, 114u8, 111u8, 99u8, 115u8]
}

pub fn lit_cgroup_procs_vec() -> (r: Vec<u8>)
    ensures
        r@ == lit_cgroup_procs(),
{
    let r: Vec<u8> = vec![99u8, 103u8, 114u8, 111u8, 117u8, 112u8, 46u8, 112u8, 114u8, 111u8, 99u8, 115u8];
    assert(r@ =~= lit_cgroup_procs());
    r
}

/// The bytes of `cgroup.events`.
pub open spec fn lit_cgroup_events() -> Seq<u8> {
    seq![99u8, 103u8, 114u8, 111u8, 117u8, 112u8, 46u8, 101u8, 118u8, 101u8, 110u8, 116u8, 115u8]
}

pub fn lit_cgroup_events_vec() -> (r: Vec<u8>)
    ensures
        r@ == lit_cgroup_events(),
{
    let r: Vec<u8> = vec![99u8, 103u8, 114u8, 111u8, 117u8, 112u8, 46u8, 101u8, 118u8, 101u8, 110u8, 116u8, 115u8];
    assert(r@ =~= lit_cgroup_events());
    r
}

/// The bytes of `done`.
pub open spec fn lit_done() -> Seq<u8> {
    seq![100u8, 111u8, 110u8, 101u8]
}

pub fn lit_done_vec() -> (r: Vec<u8>)
    ensures
        r@ == lit_done(),
{
    let r: Vec<u8> = vec![100u8, 111u8, 110u8, 101u8];
    assert(r@ =~= lit_done());
    r
}

/// The bytes of `org.freedesktop.systemd1.NoSuchUnit`.
pub open spec fn lit_no_such_unit() -> Seq<u8> {
    seq![111u8, 114u8, 103u8, 46u8, 102u8, 114u8, 101u8, 101u8, 100u8, 101u8, 115u8, 107u8, 116u8, 111u8, 112u8, 46u8, 115u8, 121u8, 115u8, 116u8, 101u8, 109u8, 100u8, 49u8, 46u8, 78u8, 111u8, 83u8, 117u8, 99u8, 104u8, 85u8, 110u8, 105u8, 116u8]
}

pub fn lit_no_such_unit_vec() -> (r: Vec<u8>)
    ensures
        r@ == lit_no_such_unit(),
{
    let r: Vec<u8> = vec![111u8, 114u8, 103u8, 46u8, 102u8, 114u8, 101u8, 101u8, 100u8, 101u8, 115u8, 107u8, 116u8, 111u8, 112u8, 46u8, 115u8, 121u8, 115u8, 116u8, 101u8, 109u8, 100u8, 49u8, 46u8, 78u8, 111u8, 83u8, 117u8, 99u8, 104u8, 85u8, 110u8, 105u8, 116u8];
    assert(r@ =~= lit_no_such_unit());
    r
}

/// The bytes of `org.freedesktop.DBus.Error.UnknownObject`.
pub open spec fn lit_unknown_object() -> Seq<u8> {
    seq![111u8, 114u8, 103u8, 46u8, 102u8, 114u8, 101u8, 101u8, 100u8, 101u8, 115u8, 107u8, 116u8, 111u8, 112u8, 46u8, 68u8, 66u8, 117u8, 115u8, 46u8, 69u8, 114u8, 114u8, 111u8, 114u8, 46u8, 85u8, 110u8, 107u8, 110u8, 111u8, 119u8, 110u8, 79u8, 98u8, 106u8, 101u8, 99u8, 116u8]
}

pub fn lit_unknown_object_vec() -> (r: Vec<u8>)
    ensures
        r@ == lit_unknown_object(),
{
    let r: Vec<u8> = vec![111u8, 114u8, 103u8, 46u8, 102u8, 114u8, 101u8, 101u8, 100u8, 101u8, 115u8, 107u8, 116u8, 111u8, 112u8, 46u8, 68u8, 66u8, 117u8, 115u8, 46u8, 69u8, 114u8, 114u8, 111u8, 114u8, 46u8, 85u8, 110u8, 107u8, 110u8, 111u8, 119u8, 110u8, 79u8, 98u8, 106u8, 101u8, 99u8, 116u8];
    assert(r@ =~= lit_unknown_object());
    r
}

/// The bytes of `org.freedesktop.DBus.Error.NameHasNoOwner`.
pub open spec fn lit_name_has_no_owner() -> Seq<u8> {
    seq![111u8, 114u8, 103u8, 46u8, 102u8, 114u8, 101u8, 101u8, 100u8, 101u8, 115u8, 107u8, 116u8, 111u8, 112u8, 46u8, 68u8, 66u8, 117u8, 115u8, 46u8, 69u8, 114u8, 114u8, 111u8, 114u8, 46u8, 78u8, 97u8, 109u8, 101u8, 72u8, 97u8, 115u8, 78u8, 111u8, 79u8, 119u8, 110u8, 101u8, 114u8]
}

pub fn lit_name_has_no_owner_vec() -> (r: Vec<u8>)
    ensures
        r@ == lit_name_has_no_owner(),
{
    let r: Vec<u8> = vec![111u8, 114u8, 103u8, 46u8, 102u8, 114u8, 101u8, 101u8, 100u8, 101u8, 115u8, 107u8, 116u8, 111u8, 112u8, 46u8, 68u8, 66u8, 117u8, 115u8, 46u8, 69u8, 114u8, 114u8, 111u8, 114u8, 46u8, 78u8, 97u8, 109u8, 101u8, 72u8, 97u8, 115u8, 78u8, 111u8, 79u8, 119u8, 110u8, 101u8, 114u8];
    assert(r@ =~= lit_name_has_no_owner());
    r
}

/// The bytes of `org.freedesktop.DBus.Error.Disconnected`.
pub open spec fn lit_dbus_disconnected() -> Seq<u8> {
    seq![111u8, 114u8, 103u8, 46u8, 102u8, 114u8, 101u8, 101u8, 100u8, 101u8, 115u8, 107u8, 116u8, 111u8, 112u8, 46u8, 68u8, 66u8, 117u8, 115u8, 46u8, 69u8, 114u8, 114u8, 111u8, 114u8, 46u8, 68u8, 105u8, 115u8, 99u8, 111u8, 110u8, 110u8, 101u8, 99u8, 116u8, 101u8, 100u8]
}

pub fn lit_dbus_disconnected_vec() -> (r: Vec<u8>)
    ensures
        r@ == lit_dbus_disconnected(),
{
    let r: Vec<u8> = vec![111u8, 114u8, 103u8, 46u8, 102u8, 114u8, 101u8, 101u8, 100u8, 101u8, 115u8, 107u8, 116u8, 111u8, 112u8, 46u8, 68u8, 66u8, 117u8, 115u8, 46u8, 69u8, 114u8, 114u8, 111u8, 114u8, 46u8, 68u8, 105u8, 115u8, 99u8, 111u8, 110u8, 110u8, 101u8, 99u8, 116u8, 101u8, 100u8];
    assert(r@ =~= lit_dbus_disconnected());
    r
}

/// The bytes of `org.freedesktop.DBus.Error.NoReply`.
pub open spec fn lit_dbus_no_reply() -> Seq<u8> {
    seq![111u8, 114u8, 103u8, 46u8, 102u8, 114u8, 101u8, 101u8, 100u8, 101u8, 115u8, 107u8, 116u8, 111u8, 112u8, 46u8, 68u8, 66u8, 117u8, 115u8, 46u8, 69u8, 114u8, 114u8, 111u8, 114u8, 46u8, 78u8, 111u8, 82u8, 101u8, 112u8, 108u8, 121u8]
}

pub fn lit_dbus_no_reply_vec() -> (r: Vec<u8>)
    ensures
        r@ == lit_dbus_no_reply(),
{
    let r: Vec<u8> = vec![111u8, 114u8, 103u8, 46u8, 102u8, 114u8, 101u8, 101u8, 100u8, 101u8, 115u8, 107u8, 116u8, 111u8, 112u8, 46u8, 68u8, 66u8, 117u8, 115u8, 46u8, 69u8, 114u8, 114u8, 111u8, 114u8, 46u8, 78u8, 111u8, 82u8, 101u8, 112u8, 108u8, 121u8];
    assert(r@ =~= lit_dbus_no_reply());
    r
}


} // verus!
