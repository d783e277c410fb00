//! The literal words of the command grammar and of SIP URIs, as byte
//! strings: each keyword once as a spec value and once as an executable
//! vector that provably holds it.

use vstd::prelude::*;

verus! {

/// `"user"`.
pub open spec fn user_kw() -> Seq<u8> {
    seq![117u8, 115u8, 101u8, 114u8]
}

pub fn user_kw_bytes() -> (r: Vec<u8>)
    ensures
        r@ == user_kw(),
{
    let r = vec![117u8, 115u8, 101u8, 114u8];
    proof {
        assert(r@ =~= user_kw());
    }
    r
}

/// `"password"`.
pub open spec fn password_kw() -> Seq<u8> {
    seq![112u8, 97u8, 115u8, 115u8, 119u8, 111u8, 114u8, 100u8]
}

pub fn password_kw_bytes() -> (r: Vec<u8>)
    ensures
        r@ == password_kw(),
{
    let r = vec![112u8, 97u8, 115u8, 115u8, 119u8, 111u8, 114u8, 100u8];
    proof {
        assert(r@ =~= password_kw());
    }
    r
}

/// `"registrar"`.
pub open spec fn registrar_kw() -> Seq<u8> {
    seq![114u8, 101u8, 103u8, 105u8, 115u8, 116u8, 114u8, 97u8, 114u8]
}

pub fn registrar_kw_bytes() -> (r: Vec<u8>)
    ensures
        r@ == registrar_kw(),
{
    let r = vec![114u8, 101u8, 103u8, 105u8, 115u8, 116u8, 114u8, 97u8, 114u8];
    proof {
        assert(r@ =~= registrar_kw());
    }
    r
}

/// `"env:"`.
pub open spec fn env_prefix_kw() -> Seq<u8> {
    seq![101u8, 110u8, 118u8, 58u8]
}

pub fn env_prefix_kw_bytes() -> (r: Vec<u8>)
    ensures
        r@ == env_prefix_kw(),
{
    let r = vec![101u8, 110u8, 118u8, 58u8];
    proof {
        assert(r@ =~= env_prefix_kw());
    }
    r
}

/// `"register"`.
pub open spec fn register_kw() -> Seq<u8> {
    seq![114u8, 101u8, 103u8, 105u8, 115u8, 116u8, 101u8, 114u8]
}

pub fn register_kw_bytes() -> (r: Vec<u8>)
    ensures
        r@ == register_kw(),
{
    let r = vec![114u8, 101u8, 103u8, 105u8, 115u8, 116u8, 101u8, 114u8];
    proof {
        assert(r@ =~= register_kw());
    }
    r
}

/// `"unregister"`.
pub open spec fn unregister_kw() -> Seq<u8> {
    seq![117u8, 110u8, 114u8, 101u8, 103u8, 105u8, 115u8, 116u8, 101u8, 114u8]
}

pub fn unregister_kw_bytes() -> (r: Vec<u8>)
    ensures
        r@ == unregister_kw(),
{
    let r = vec![117u8, 110u8, 114u8, 101u8, 103u8, 105u8, 115u8, 116u8, 101u8, 114u8];
    proof {
        assert(r@ =~= unregister_kw());
    }
    r
}

/// `"call"`.
pub open spec fn call_kw() -> Seq<u8> {
    seq![99u8, 97u8, 108u8, 108u8]
}

pub fn call_kw_bytes() -> (r: Vec<u8>)
    ensures
        r@ == call_kw(),
{
    let r = vec![99u8, 97u8, 108u8, 108u8];
    proof {
        assert(r@ =~= call_kw());
    }
    r
}

/// `"accept call"`.
pub open spec fn accept_call_kw() -> Seq<u8> {
    seq![97u8, 99u8, 99u8, 101u8, 112u8, 116u8, 32u8, 99u8, 97u8, 108u8, 108u8]
}

pub fn accept_call_kw_bytes() -> (r: Vec<u8>)
    ensures
        r@ == accept_call_kw(),
{
    let r = vec![97u8, 99u8, 99u8, 101u8, 112u8, 116u8, 32u8, 99u8, 97u8, 108u8, 108u8];
    proof {
        assert(r@ =~= accept_call_kw());
    }
    r
}

/// `"decline call"`.
pub open spec fn decline_call_kw() -> Seq<u8> {
    seq![100u8, 101u8, 99u8, 108u8, 105u8, 110u8, 101u8, 32u8, 99u8, 97u8, 108u8, 108u8]
}

pub fn decline_call_kw_bytes() -> (r: Vec<u8>)
    ensures
        r@ == decline_call_kw(),
{
    let r = vec![100u8, 101u8, 99u8, 108u8, 105u8, 110u8, 101u8, 32u8, 99u8, 97u8, 108u8, 108u8];
    proof {
        assert(r@ =~= decline_call_kw());
    }
    r
}

/// `"terminate call"`.
pub open spec fn terminate_call_kw() -> Seq<u8> {
    seq![116u8, 101u8, 114u8, 109u8, 105u8, 110u8, 97u8, 116u8, 101u8, 32u8, 99u8, 97u8, 108u8, 108u8]
}

pub fn terminate_call_kw_bytes() -> (r: Vec<u8>)
    ensures
        r@ == terminate_call_kw(),
{
    let r = vec![116u8, 101u8, 114u8, 109u8, 105u8, 110u8, 97u8, 116u8, 101u8, 32u8, 99u8, 97u8, 108u8, 108u8];
    proof {
        assert(r@ =~= terminate_call_kw());
    }
    r
}

/// `"help"`.
pub open spec fn help_kw() -> Seq<u8> {
    seq![104u8, 101u8, 108u8, 112u8]
}

pub fn help_kw_bytes() -> (r: Vec<u8>)
    ensures
        r@ == help_kw(),
{
    let r = vec![104u8, 101u8, 108u8, 112u8];
    proof {
        assert(r@ =~= help_kw());
    }
    r
}

/// `"sip:"`.
pub open spec fn sip_scheme_kw() -> Seq<u8> {
    seq![115u8, 105u8, 112u8, 58u8]
}

pub fn sip_scheme_kw_bytes() -> (r: Vec<u8>)
    ensures
        r@ == sip_scheme_kw(),
{
    let r = vec![115u8, 105u8, 112u8, 58u8];
    proof {
        assert(r@ =~= sip_scheme_kw());
    }
    r
}

/// `"The call cancelled"`.
pub open spec fn call_cancelled_reason() -> Seq<u8> {
    seq![84u8, 104u8, 101u8, 32u8, 99u8, 97u8, 108u8, 108u8, 32u8, 99u8, 97u8, 110u8, 99u8, 101u8, 108u8, 108u8, 101u8, 100u8]
}

pub fn call_cancelled_reason_bytes() -> (r: Vec<u8>)
    ensures
        r@ == call_cancelled_reason(),
{
    let r = vec![84u8, 104u8, 101u8, 32u8, 99u8, 97u8, 108u8, 108u8, 32u8, 99u8, 97u8, 110u8, 99u8, 101u8, 108u8, 108u8, 101u8, 100u8];
    proof {
        assert(r@ =~= call_cancelled_reason());
    }
    r
}

/// `"Action channel is closed"`.
pub open spec fn channel_closed_reason() -> Seq<u8> {
    seq![65u8, 99u8, 116u8, 105u8, 111u8, 110u8, 32u8, 99u8, 104u8, 97u8, 110u8, 110u8, 101u8, 108u8, 32u8, 105u8, 115u8, 32u8, 99u8, 108u8, 111u8, 115u8, 101u8, 100u8]
}

pub fn channel_closed_reason_bytes() -> (r: Vec<u8>)
    ensures
        r@ == channel_closed_reason(),
{
    let r = vec![65u8, 99u8, 116u8, 105u8, 111u8, 110u8, 32u8, 99u8, 104u8, 97u8, 110u8, 110u8, 101u8, 108u8, 32u8, 105u8, 115u8, 32u8, 99u8, 108u8, 111u8, 115u8, 101u8, 100u8];
    proof {
        assert(r@ =~= channel_closed_reason());
    }
    r
}

/// `"There is an active call"`.
pub open spec fn active_call_reason() -> Seq<u8> {
    seq![84u8, 104u8, 101u8, 114u8, 101u8, 32u8, 105u8, 115u8, 32u8, 97u8, 110u8, 32u8, 97u8, 99u8, 116u8, 105u8, 118u8, 101u8, 32u8, 99u8, 97u8, 108u8, 108u8]
}

pub fn active_call_reason_bytes() -> (r: Vec<u8>)
    ensures
        r@ == active_call_reason(),
{
    let r = vec![84u8, 104u8, 101u8, 114u8, 101u8, 32u8, 105u8, 115u8, 32u8, 97u8, 110u8, 32u8, 97u8, 99u8, 116u8, 105u8, 118u8, 101u8, 32u8, 99u8, 97u8, 108u8, 108u8];
    proof {
        assert(r@ =~= active_call_reason());
    }
    r
}
} // verus!