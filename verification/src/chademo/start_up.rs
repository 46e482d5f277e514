//! The waits of a session's start: for the power converter, for the K line
//! and for equal voltages.
use vstd::prelude::*;

verus! {

/// Polls, one a second, before the wait for the converter to come online ends.
pub const PRE_ONLINE_POLLS: u32 = 20;

/// Polls, one a second, before the wait for the first setpoints ends.
pub const PRE_SETTLED_POLLS: u32 = 5;

/// First voltage asked of the converter, in volts.
pub const FIRST_VOLTS: u16 = 370;

/// First current asked of the converter, in amps.
pub const FIRST_AMPS: u16 = 1;

/// Exchanges with the vehicle, ten a second, before a wait for it ends.
pub const EXCHANGES: u8 = 100;

/// What a wait comes to.
#[derive(Debug, Clone, Copy, PartialEq, Eq, Structural)]
pub enum Poll {
    /// What was waited for is there
    Ready,
    /// Wait on
    Again,
    /// The wait has lasted too long
    TimedOut,
}

/// A wait that goes on after `polls` fruitless polls as long as these are no
/// more than `limit`.
pub open spec fn polled(polls: u32, limit: u32, ready: bool) -> Poll {
    if ready {
        Poll::Ready
    } else if polls > limit {
        Poll::TimedOut
    } else {
        Poll::Again
    }
}

fn poll(polls: u32, limit: u32, ready: bool) -> (r: Poll)
    ensures
        r == polled(polls, limit, ready),
{
    if ready {
        Poll::Ready
    } else if polls > limit {
        Poll::TimedOut
    } else {
        Poll::Again
    }
}

/// The wait for the converter to come online, after `polls` polls.
pub fn init_pre(polls: u32, online: bool) -> (r: Poll)
    ensures
        r == polled(polls, PRE_ONLINE_POLLS, online),
{
    poll(polls, PRE_ONLINE_POLLS, online)
}

/// The wait for the converter to settle at its first setpoints, after `polls`
/// polls. `volts` and `amps` are the setpoints that it reports in whole units,
/// `volts_equal` says that its output has reached them.
pub fn settle_pre(polls: u32, volts: u16, amps: u16, volts_equal: bool) -> (r: Poll)
    ensures
        r == polled(
            polls,
            PRE_SETTLED_POLLS,
            volts == FIRST_VOLTS && amps == FIRST_AMPS && volts_equal,
        ),
{
    poll(polls, PRE_SETTLED_POLLS, volts == FIRST_VOLTS && amps == FIRST_AMPS && volts_equal)
}

/// One exchange of the wait for the K line. `left` counts the exchanges that
/// are left, this one included.
pub fn k_line(left: &mut u8, seen: bool) -> (r: Poll)
    requires
        *old(left) > 0,
    ensures
        *final(left) == (if seen {
            *old(left) as int
        } else {
            *old(left) - 1
        }),
        r == (if seen {
            Poll::Ready
        } else if *old(left) == 1 {
            Poll::TimedOut
        } else {
            Poll::Again
        }),
{
    if seen {
        return Poll::Ready;
    }
    *left = *left - 1;
    if *left == 0 {
        Poll::TimedOut
    } else {
        Poll::Again
    }
}

/// What the precharge carries from exchange to exchange.
#[derive(Debug, Clone, Copy, PartialEq, Eq, Structural)]
pub struct Precharge {
    /// The last plausible state of charge; above a hundred if there was none
    pub soc: u8,
    /// Exchanges that are left
    pub left: u8,
}

/// What an exchange of the precharge leads to.
#[derive(Debug, Clone, Copy, PartialEq, Eq, Structural)]
pub struct PrechargeStep {
    /// Ask the converter for the voltage that goes with the state of charge
    pub set_volts: bool,
    /// Report the output voltage of the converter to the vehicle
    pub report_volts: bool,
    /// Close the contactors (ready), go on or give up
    pub poll: Poll,
}

/// A state of charge that the vehicle can have.
pub open spec fn plausible_soc(soc: u8) -> bool {
    10 <= soc <= 100
}

/// The state of charge that is known after an exchange.
pub open spec fn known_soc(before: u8, soc: u8) -> u8 {
    if plausible_soc(soc) {
        soc
    } else {
        before
    }
}

impl Precharge {
    pub fn new() -> (r: Self)
        ensures
            r == (Precharge { soc: 255, left: EXCHANGES }),
    {
        Precharge { soc: 255, left: EXCHANGES }
    }

    /// One exchange: the vehicle reports its state of charge, whether its
    /// contactors are closed and whether it is ready; the converter whether
    /// its voltage has been reached.
    pub fn exchange(
        &mut self,
        soc: u8,
        contactors_closed: bool,
        volts_equal: bool,
        car_ready: bool,
    ) -> (r: PrechargeStep)
        requires
            old(self).left > 0,
        ensures
            final(self).left == old(self).left - 1,
            final(self).soc == known_soc(old(self).soc, soc),
            r.set_volts == (plausible_soc(soc) && soc != old(self).soc),
            r.report_volts == (final(self).soc <= 100),
            r.poll == (if final(self).soc <= 100 && contactors_closed && volts_equal && car_ready {
                Poll::Ready
            } else if old(self).left == 1 {
                Poll::TimedOut
            } else {
                Poll::Again
            }),
    {
        self.left = self.left - 1;
        let set_volts = soc >= 10 && soc <= 100 && self.soc != soc;
        if set_volts {
            self.soc = soc;
        }
        let report_volts = self.soc <= 100;
        let poll = if report_volts && contactors_closed && volts_equal && car_ready {
            Poll::Ready
        } else if self.left == 0 {
            Poll::TimedOut
        } else {
            Poll::Again
        };
        PrechargeStep { set_volts, report_volts, poll }
    }
}

/// The states of charge that the vehicle reports in turn.
pub open spec fn socs_known(before: u8, socs: Seq<u8>) -> u8
    decreases socs.len(),
{
    if socs.len() == 0 {
        before
    } else {
        socs_known(known_soc(before, socs[0]), socs.drop_first())
    }
}

/// As long as the vehicle has reported no plausible state of charge, the
/// precharge knows none, and so neither reports a voltage nor closes the
/// contactors.
pub proof fn law_no_precharge_without_soc(socs: Seq<u8>)
    requires
        forall|i: int| 0 <= i < socs.len() ==> !plausible_soc(#[trigger] socs[i]),
    ensures
        socs_known(255, socs) > 100,
    decreases socs.len(),
{
    if socs.len() > 0 {
        assert(!plausible_soc(socs[0]));
        assert forall|i: int| 0 <= i < socs.drop_first().len() implies !plausible_soc(
            #[trigger] socs.drop_first()[i],
        ) by {
            assert(socs.drop_first()[i] == socs[i + 1]);
        }
        law_no_precharge_without_soc(socs.drop_first());
    }
}

/// The converter is waited for until it is online, and given up after more than
/// twenty fruitless polls.
pub proof fn law_converter_has_twenty_polls(polls: u32, online: bool, r: Poll)
    requires
        call_ensures(init_pre, (polls, online), r),
    ensures
        r == Poll::Ready <==> online,
        r == Poll::TimedOut <==> !online && polls > 20,
        r == Poll::Again <==> !online && polls <= 20,
{
}

/// The converter has settled once it reports 370 volts and one amp and its
/// output has got there, and is given up after more than five fruitless polls.
pub proof fn law_setpoints_have_five_polls(
    polls: u32,
    volts: u16,
    amps: u16,
    volts_equal: bool,
    r: Poll,
)
    requires
        call_ensures(settle_pre, (polls, volts, amps, volts_equal), r),
    ensures
        r == Poll::Ready <==> volts == 370 && amps == 1 && volts_equal,
        r == Poll::TimedOut ==> polls > 5,
        r == Poll::Again ==> polls <= 5,
{
}

/// The wait for the K line ends with the signal, or with the last exchange
/// that is left; every exchange without the signal takes one away.
pub proof fn law_k_line_ends_the_wait(left: &mut u8, seen: bool, r: Poll)
    requires
        *old(left) > 0,
        call_ensures(k_line, (left, seen), r),
    ensures
        ({
            let n = *final(left);
            &&& r == Poll::Ready <==> seen
            &&& r == Poll::TimedOut <==> !seen && n == 0
            &&& seen ==> n == *old(left)
            &&& !seen ==> n + 1 == *old(left)
        }),
{
}

/// A precharge starts without a state of charge and with a hundred exchanges.
pub proof fn law_precharge_has_a_hundred_exchanges(p: Precharge)
    requires
        call_ensures(Precharge::new, (), p),
    ensures
        p.soc > 100,
        p.left == 100,
{
}

/// A state of charge between 10 and 100 percent is believed, and any other
/// passed over: the last one that was believed stays known.
pub proof fn law_precharge_believes_what_can_be(
    p: &mut Precharge,
    soc: u8,
    contactors_closed: bool,
    volts_equal: bool,
    car_ready: bool,
    r: PrechargeStep,
)
    requires
        old(p).left > 0,
        call_ensures(
            Precharge::exchange,
            (p, soc, contactors_closed, volts_equal, car_ready),
            r,
        ),
    ensures
        ({
            let n = *final(p);
            &&& 10 <= soc <= 100 ==> n.soc == soc && (r.set_volts <==> soc != old(p).soc)
            &&& soc < 10 || soc > 100 ==> n.soc == old(p).soc && !r.set_volts
            &&& n.left + 1 == old(p).left
        }),
{
}

/// The contactors are closed once the state of charge is known, the vehicle's
/// contactors are closed, the voltages are equal and the vehicle is ready: not
/// before, and not later. Without that the precharge goes on as long as
/// exchanges are left.
pub proof fn law_contactors_close_when_all_is_ready(
    p: &mut Precharge,
    soc: u8,
    contactors_closed: bool,
    volts_equal: bool,
    car_ready: bool,
    r: PrechargeStep,
)
    requires
        old(p).left > 0,
        call_ensures(
            Precharge::exchange,
            (p, soc, contactors_closed, volts_equal, car_ready),
            r,
        ),
    ensures
        ({
            let n = *final(p);
            let known = old(p).soc <= 100 || 10 <= soc <= 100;
            &&& r.report_volts <==> known
            &&& r.poll == Poll::Ready <==> known && contactors_closed && volts_equal && car_ready
            &&& r.poll == Poll::TimedOut ==> n.left == 0
            &&& r.poll == Poll::Again ==> n.left > 0
        }),
{
}

/// Whatever the vehicle reports, what is known in the end is what was known
/// before or a report between 10 and 100 percent, the last of these.
pub proof fn law_last_report_counts(before: u8, socs: Seq<u8>, soc: u8)
    ensures
        10 <= soc <= 100 ==> socs_known(before, socs.push(soc)) == soc,
        soc < 10 || soc > 100 ==> socs_known(before, socs.push(soc)) == socs_known(before, socs),
    decreases socs.len(),
{
    reveal_with_fuel(socs_known, 2);
    if socs.len() > 0 {
        assert(socs.push(soc).drop_first() =~= socs.drop_first().push(soc));
        law_last_report_counts(known_soc(before, socs[0]), socs.drop_first(), soc);
    }
}

} // verus!
