//! A software I2C master, for exercising a slave without a second device.

use vstd::prelude::*;

verus! {

/// The abstract value of a [`MockMaster`].
pub struct MockMasterView {
    /// Address of the slave it talks to.
    pub address: u8,
    /// Everything written to the slave, oldest first.
    pub tx: Seq<u8>,
    /// The slave's response not yet read, oldest first.
    pub rx: Seq<u8>,
}

/// Mock I2C master: records what it writes and serves reads from a response
/// set in advance.
pub struct MockMaster {
    address: u8,
    tx_buffer: Vec<u8>,
    rx_buffer: Vec<u8>,
}

impl View for MockMaster {
    type V = MockMasterView;

    closed spec fn view(&self) -> MockMasterView {
        MockMasterView { address: self.address, tx: self.tx_buffer@, rx: self.rx_buffer@ }
    }
}

/// Appends `data` to `v`.
fn append_bytes(v: &mut Vec<u8>, data: &[u8])
    ensures
        final(v)@ == old(v)@ + data@,
{
    let ghost v0 = v@;
    let mut i: usize = 0;
    while i < data.len()
        invariant
            i <= data@.len(),
            v@ == v0 + data@.take(i as int),
        decreases data@.len() - i,
    {
        v.push(data[i]);
        assert(v0 + data@.take(i + 1) =~= (v0 + data@.take(i as int)).push(data@[i as int]));
        i = i + 1;
    }
    assert(data@.take(data@.len() as int) =~= data@);
}

/// The transmit log after a write of `data`: a non-empty write appends its
/// bytes; an empty one is refused and adds nothing.
pub open spec fn logged(tx: Seq<u8>, data: Seq<u8>) -> Seq<u8> {
    if data.len() == 0 {
        tx
    } else {
        tx + data
    }
}

/// The transmit log after the writes of `writes`, in order, starting from
/// `tx`.
pub open spec fn log_after(tx: Seq<u8>, writes: Seq<Seq<u8>>) -> Seq<u8>
    decreases writes.len(),
{
    if writes.len() == 0 {
        tx
    } else {
        logged(log_after(tx, writes.drop_last()), writes.last())
    }
}

/// The bytes of `writes` one after the other.
pub open spec fn concat_all(writes: Seq<Seq<u8>>) -> Seq<u8>
    decreases writes.len(),
{
    if writes.len() == 0 {
        Seq::empty()
    } else {
        concat_all(writes.drop_last()) + writes.last()
    }
}

/// How many bytes a read takes: what is pending, at most the buffer's
/// length.
pub open spec fn read_len(pending: nat, buffer_len: nat) -> nat {
    if buffer_len < pending {
        buffer_len
    } else {
        pending
    }
}

impl MockMaster {
    /// A master talking to `slave_address`, with nothing sent or pending.
    pub fn new(slave_address: u8) -> (m: Self)
        ensures
            m@.address == slave_address,
            m@.tx == Seq::<u8>::empty(),
            m@.rx == Seq::<u8>::empty(),
    {
        MockMaster { address: slave_address, tx_buffer: Vec::new(), rx_buffer: Vec::new() }
    }

    /// Writes `data` to the slave; an empty write is refused.
    pub fn write(&mut self, data: &[u8]) -> (res: Result<(), &'static str>)
        ensures
            final(self)@.tx == logged(old(self)@.tx, data@),
            data@.len() == 0 ==> res is Err && res->Err_0@ == "Empty write"@ && final(self)@
                == old(self)@,
            data@.len() > 0 ==> res is Ok && final(self)@ == (MockMasterView {
                tx: old(self)@.tx + data@,
                ..old(self)@
            }),
    {
        if data.len() == 0 {
            return Err("Empty write");
        }
        append_bytes(&mut self.tx_buffer, data);
        Ok(())
    }

    /// Reads the slave's response into `buffer`: as much as is pending, at
    /// most the buffer's length; the bytes read leave the response. An empty
    /// buffer is refused.
    pub fn read(&mut self, buffer: &mut [u8]) -> (res: Result<usize, &'static str>)
        ensures
            old(buffer)@.len() == 0 ==> res is Err && res->Err_0@ == "Empty buffer"@ && final(self)@ == old(self)@ && final(buffer)@ == old(buffer)@,
            old(buffer)@.len() > 0 ==> {
                let n = read_len(old(self)@.rx.len(), old(buffer)@.len());
                &&& res == Ok::<usize, &'static str>(n as usize)
                &&& final(buffer)@ == old(self)@.rx.take(n as int) + old(buffer)@.skip(n as int)
                &&& final(self)@ == (MockMasterView {
                    rx: old(self)@.rx.skip(n as int),
                    ..old(self)@
                })
            },
    {
        if buffer.len() == 0 {
            return Err("Empty buffer");
        }
        let len = if buffer.len() < self.rx_buffer.len() {
            buffer.len()
        } else {
            self.rx_buffer.len()
        };
        let ghost rx0 = self.rx_buffer@;
        let ghost buf0 = buffer@;
        let rest = self.rx_buffer.split_off(len);
        let mut i: usize = 0;
        while i < len
            invariant
                i <= len,
                len <= buf0.len(),
                len <= rx0.len(),
                buffer@.len() == buf0.len(),
                self.rx_buffer@ == rx0.take(len as int),
                buffer@ == rx0.take(i as int) + buf0.skip(i as int),
            decreases len - i,
        {
            buffer[i] = self.rx_buffer[i];
            assert(buffer@ =~= rx0.take(i + 1) + buf0.skip(i + 1));
            i = i + 1;
        }
        self.rx_buffer = rest;
        proof {
            assert(rx0.subrange(len as int, rx0.len() as int) =~= rx0.skip(len as int));
        }
        Ok(len)
    }

    /// Writes `write_data`, then reads into `read_buffer`, as one transaction.
    pub fn write_read(&mut self, write_data: &[u8], read_buffer: &mut [u8]) -> (res: Result<
        usize,
        &'static str,
    >)
        ensures
            write_data@.len() == 0 ==> res is Err && res->Err_0@ == "Empty write"@ && final(self)@ == old(self)@ && final(read_buffer)@ == old(read_buffer)@,
            write_data@.len() > 0 && old(read_buffer)@.len() == 0 ==> res is Err && res->Err_0@
                == "Empty buffer"@ && final(self)@ == (MockMasterView {
                tx: old(self)@.tx + write_data@,
                ..old(self)@
            }),
            write_data@.len() > 0 && old(read_buffer)@.len() > 0 ==> {
                let n = read_len(old(self)@.rx.len(), old(read_buffer)@.len());
                &&& res == Ok::<usize, &'static str>(n as usize)
                &&& final(read_buffer)@ == old(self)@.rx.take(n as int) + old(read_buffer)@.skip(n as int)
                &&& final(self)@ == (MockMasterView {
                    tx: old(self)@.tx + write_data@,
                    rx: old(self)@.rx.skip(n as int),
                    ..old(self)@
                })
            },
    {
        match self.write(write_data) {
            Ok(()) => {},
            Err(e) => {
                return Err(e);
            },
        }
        self.read(read_buffer)
    }

    /// Everything written to the slave, for checking.
    pub fn get_tx_buffer(&self) -> (b: &[u8])
        ensures
            b@ == self@.tx,
    {
        self.tx_buffer.as_slice()
    }

    /// Sets the response that the slave will give.
    pub fn set_rx_buffer(&mut self, data: &[u8])
        ensures
            final(self)@ == (MockMasterView { rx: data@, ..old(self)@ }),
    {
        self.rx_buffer.clear();
        append_bytes(&mut self.rx_buffer, data);
    }

    /// Forgets what was written and the pending response.
    pub fn clear(&mut self)
        ensures
            final(self)@ == (MockMasterView {
                tx: Seq::<u8>::empty(),
                rx: Seq::<u8>::empty(),
                ..old(self)@
            }),
    {
        self.tx_buffer.clear();
        self.rx_buffer.clear();
    }

    /// The slave address configured.
    pub fn slave_address(&self) -> (a: u8)
        ensures
            a == self@.address,
    {
        self.address
    }
}

/// The transmit log holds what was written, in order: from a master made by
/// `new` or cleared, writes of `writes` (reads and responses set in between
/// leave the log alone) leave it holding their bytes one after the other; an
/// empty write adds nothing.
pub proof fn lemma_tx_log_concatenates(tx: Seq<u8>, writes: Seq<Seq<u8>>)
    ensures
        log_after(tx, writes) == tx + concat_all(writes),
    decreases writes.len(),
{
    if writes.len() > 0 {
        lemma_tx_log_concatenates(tx, writes.drop_last());
        assert(tx + concat_all(writes.drop_last()) + writes.last() =~= tx + (concat_all(
            writes.drop_last(),
        ) + writes.last()));
        if writes.last().len() == 0 {
            assert(concat_all(writes.drop_last()) + writes.last() =~= concat_all(
                writes.drop_last(),
            ));
        }
    } else {
        assert(tx + Seq::<u8>::empty() =~= tx);
    }
}

/// A response set in advance is read back whole by a read whose buffer is
/// large enough: the read takes all of it, the buffer starts with it, and
/// nothing stays pending. A smaller buffer takes a prefix and the rest stays
/// pending, in order.
pub proof fn lemma_response_read_back(data: Seq<u8>, buffer: Seq<u8>)
    requires
        buffer.len() > 0,
    ensures
        data.len() <= buffer.len() ==> {
            let n = read_len(data.len(), buffer.len());
            &&& n == data.len()
            &&& (data.take(n as int) + buffer.skip(n as int)).take(n as int) == data
            &&& data.skip(n as int) == Seq::<u8>::empty()
        },
        data.len() > buffer.len() ==> {
            let n = read_len(data.len(), buffer.len());
            &&& n == buffer.len()
            &&& data.take(n as int) + data.skip(n as int) == data
        },
{
    let n = read_len(data.len(), buffer.len());
    assert((data.take(n as int) + buffer.skip(n as int)).take(n as int) =~= data.take(n as int));
    assert(data.take(n as int) + data.skip(n as int) =~= data);
    if data.len() <= buffer.len() {
        assert(data.take(n as int) =~= data);
        assert(data.skip(n as int) =~= Seq::<u8>::empty());
    }
}

} // verus!
