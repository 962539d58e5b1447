//! The control-query codec.
//!
//! A control query names an extension unit, one of its controls and an
//! operation, and carries the buffer that the operation reads or fills. Its
//! size is the length of that buffer and is stored nowhere else.
//!
//! On the wire a query is five header bytes followed by the buffer:
//!
//! | bytes  | field    |                                     |
//! |--------|----------|-------------------------------------|
//! | `0`    | unit     |                                     |
//! | `1`    | selector |                                     |
//! | `2`    | query    | request code of the UVC class       |
//! | `3..5` | size     | `u16`, in the byte order of the host |
//! | `5..`  | data     | `size` bytes                        |
//!
//! Which byte order the host has is for the caller to say.

use crate::endian::{
    le_bytes, le_value, lemma_le_bytes_len, lemma_le_bytes_of_value, lemma_le_value_bound,
    lemma_le_value_of_bytes, lemma_pow256_small,
};
use vstd::prelude::*;

verus! {

/// The operation that a query asks of a control.
#[derive(Clone, Copy, Debug, PartialEq, Eq, Structural)]
pub enum XuQuery {
    /// Set the current value.
    SetCur,
    /// Get the current value.
    GetCur,
    /// Get the minimum value.
    GetMin,
    /// Get the maximum value.
    GetMax,
    /// Get the resolution.
    GetRes,
    /// Get the length of the control's value.
    GetLen,
    /// Get the capability bits of the control.
    GetInfo,
    /// Get the default value.
    GetDef,
}

impl XuQuery {
    /// The request code that stands for the operation on the wire.
    pub open spec fn spec_code(self) -> u8 {
        match self {
            XuQuery::SetCur => 0x01,
            XuQuery::GetCur => 0x81,
            XuQuery::GetMin => 0x82,
            XuQuery::GetMax => 0x83,
            XuQuery::GetRes => 0x84,
            XuQuery::GetLen => 0x85,
            XuQuery::GetInfo => 0x86,
            XuQuery::GetDef => 0x87,
        }
    }

    /// The operation that a request code stands for, if it stands for one.
    pub open spec fn spec_from_code(code: u8) -> Option<XuQuery> {
        if code == 0x01 {
            Some(XuQuery::SetCur)
        } else if code == 0x81 {
            Some(XuQuery::GetCur)
        } else if code == 0x82 {
            Some(XuQuery::GetMin)
        } else if code == 0x83 {
            Some(XuQuery::GetMax)
        } else if code == 0x84 {
            Some(XuQuery::GetRes)
        } else if code == 0x85 {
            Some(XuQuery::GetLen)
        } else if code == 0x86 {
            Some(XuQuery::GetInfo)
        } else if code == 0x87 {
            Some(XuQuery::GetDef)
        } else {
            None
        }
    }

    /// The request code that stands for the operation on the wire.
    #[verifier::when_used_as_spec(spec_code)]
    pub fn code(self) -> (code: u8)
        ensures
            code == self.code(),
    {
        match self {
            XuQuery::SetCur => 0x01,
            XuQuery::GetCur => 0x81,
            XuQuery::GetMin => 0x82,
            XuQuery::GetMax => 0x83,
            XuQuery::GetRes => 0x84,
            XuQuery::GetLen => 0x85,
            XuQuery::GetInfo => 0x86,
            XuQuery::GetDef => 0x87,
        }
    }

    /// The operation that a request code stands for; `None` for a code that
    /// stands for none.
    #[verifier::when_used_as_spec(spec_from_code)]
    pub fn from_code(code: u8) -> (query: Option<XuQuery>)
        ensures
            query == XuQuery::from_code(code),
    {
        match code {
            0x01 => Some(XuQuery::SetCur),
            0x81 => Some(XuQuery::GetCur),
            0x82 => Some(XuQuery::GetMin),
            0x83 => Some(XuQuery::GetMax),
            0x84 => Some(XuQuery::GetRes),
            0x85 => Some(XuQuery::GetLen),
            0x86 => Some(XuQuery::GetInfo),
            0x87 => Some(XuQuery::GetDef),
            _ => None,
        }
    }

    /// Every operation is found again from its code.
    pub proof fn lemma_query_of_code(query: XuQuery)
        ensures
            XuQuery::from_code(query.code()) == Some(query),
    {
    }

    /// A code that names an operation is the code of that operation.
    pub proof fn lemma_code_of_query(code: u8)
        ensures
            XuQuery::from_code(code) matches Some(query) ==> query.code() == code,
    {
    }
}

/// The order in which the two bytes of the size field stand.
#[derive(Clone, Copy, Debug, PartialEq, Eq, Structural)]
pub enum ByteOrder {
    /// Low byte first.
    LittleEndian,
    /// High byte first.
    BigEndian,
}

impl ByteOrder {
    /// The two bytes that hold `size` in this order.
    pub open spec fn size_field(self, size: nat) -> Seq<u8>
        recommends
            size <= u16::MAX,
    {
        match self {
            ByteOrder::LittleEndian => le_bytes(size, 2),
            ByteOrder::BigEndian => le_bytes(size, 2).reverse(),
        }
    }

    /// The size that the two bytes `field` hold in this order.
    pub open spec fn size_value(self, field: Seq<u8>) -> nat
        recommends
            field.len() == 2,
    {
        match self {
            ByteOrder::LittleEndian => le_value(field),
            ByteOrder::BigEndian => le_value(field.reverse()),
        }
    }

    /// A size that fits the field is read back from the two bytes that hold
    /// it.
    pub proof fn lemma_size_of_field(self, size: nat)
        requires
            size <= u16::MAX,
        ensures
            self.size_field(size).len() == 2,
            self.size_value(self.size_field(size)) == size,
    {
        lemma_le_bytes_len(size, 2);
        lemma_pow256_small(2);
        lemma_le_value_of_bytes(size, 2);
        assert(le_bytes(size, 2).reverse().reverse() =~= le_bytes(size, 2));
    }

    /// Two bytes hold a size that fits the field, and are the bytes that
    /// hold it.
    pub proof fn lemma_field_of_size(self, field: Seq<u8>)
        requires
            field.len() == 2,
        ensures
            self.size_value(field) <= u16::MAX,
            self.size_field(self.size_value(field)) == field,
    {
        lemma_pow256_small(2);
        lemma_le_value_bound(field);
        lemma_le_value_bound(field.reverse());
        lemma_le_bytes_of_value(field);
        lemma_le_bytes_of_value(field.reverse());
        assert(field.reverse().reverse() =~= field);
    }
}

/// Why a byte string is not a control query.
#[derive(Clone, Copy, Debug, PartialEq, Eq, Structural)]
pub enum DecodeError {
    /// There are fewer bytes than a header has.
    Truncated,
    /// The query byte holds this code, which names no operation.
    UnknownQuery(u8),
    /// The bytes behind the header are not as many as the size field says.
    SizeMismatch,
}

/// Why a control query came to nothing.
#[derive(Clone, Copy, Debug, PartialEq, Eq, Structural)]
pub enum QueryError {
    /// The driver failed the query with this OS error code.
    Os(i32),
    /// The buffer that came back is not as long as the one that went out.
    ReplyLength,
}

/// What a control query says, field by field.
pub struct QueryView {
    /// The extension unit that is addressed.
    pub unit: u8,
    /// The control of that unit.
    pub selector: u8,
    /// The operation asked of the control.
    pub query: XuQuery,
    /// The buffer that goes with the operation.
    pub data: Seq<u8>,
}

impl QueryView {
    /// The length of the buffer fits the size field.
    pub open spec fn wf(self) -> bool {
        self.data.len() <= u16::MAX
    }

    /// The size that the query declares: the length of its buffer.
    pub open spec fn size(self) -> nat {
        self.data.len()
    }

    /// The five header bytes.
    pub open spec fn header(self, order: ByteOrder) -> Seq<u8>
        recommends
            self.wf(),
    {
        seq![self.unit, self.selector, self.query.code()] + order.size_field(self.size())
    }

    /// The query on the wire: its header, then its buffer.
    pub open spec fn wire(self, order: ByteOrder) -> Seq<u8>
        recommends
            self.wf(),
    {
        self.header(order) + self.data
    }

    /// The query that `bytes` spell, or why they spell none.
    pub open spec fn of_wire(bytes: Seq<u8>, order: ByteOrder) -> Result<QueryView, DecodeError> {
        if bytes.len() < XuControlQuery::HEADER_SIZE {
            Err(DecodeError::Truncated)
        } else if XuQuery::from_code(bytes[2]) is None {
            Err(DecodeError::UnknownQuery(bytes[2]))
        } else if order.size_value(bytes.subrange(3, 5)) != bytes.len()
            - XuControlQuery::HEADER_SIZE {
            Err(DecodeError::SizeMismatch)
        } else {
            Ok(
                QueryView {
                    unit: bytes[0],
                    selector: bytes[1],
                    query: XuQuery::from_code(bytes[2])->0,
                    data: bytes.skip(XuControlQuery::HEADER_SIZE as int),
                },
            )
        }
    }

    /// What comes of the query once the driver has answered.
    ///
    /// A failure keeps its OS error code. A buffer comes back as it is,
    /// provided it has the size that the query declared.
    pub open spec fn completed(self, outcome: Result<Seq<u8>, i32>) -> Result<
        Seq<u8>,
        QueryError,
    > {
        reply_of(outcome, self.size())
    }

    /// The size field of an encoded query holds the length of its buffer,
    /// and the buffer follows the header with exactly that many bytes.
    pub proof fn lemma_size_field(self, order: ByteOrder)
        requires
            self.wf(),
        ensures
            self.header(order).len() == XuControlQuery::HEADER_SIZE,
            self.wire(order).len() == XuControlQuery::HEADER_SIZE + self.size(),
            order.size_value(self.wire(order).subrange(3, 5)) == self.size(),
            self.wire(order).skip(XuControlQuery::HEADER_SIZE as int) == self.data,
    {
        order.lemma_size_of_field(self.size());
        assert(self.wire(order).subrange(3, 5) =~= order.size_field(self.size()));
        assert(self.wire(order).skip(XuControlQuery::HEADER_SIZE as int) =~= self.data);
    }

    /// An encoded query decodes to itself.
    pub proof fn lemma_decode_of_encoded(self, order: ByteOrder)
        requires
            self.wf(),
        ensures
            QueryView::of_wire(self.wire(order), order) == Ok::<QueryView, DecodeError>(self),
    {
        self.lemma_size_field(order);
        XuQuery::lemma_query_of_code(self.query);
    }

    /// Bytes that decode to a query are the encoding of that query.
    pub proof fn lemma_encode_of_decoded(bytes: Seq<u8>, order: ByteOrder)
        requires
            QueryView::of_wire(bytes, order) is Ok,
        ensures
            QueryView::of_wire(bytes, order)->Ok_0.wf(),
            QueryView::of_wire(bytes, order)->Ok_0.wire(order) == bytes,
    {
        let q = QueryView::of_wire(bytes, order)->Ok_0;
        order.lemma_field_of_size(bytes.subrange(3, 5));
        XuQuery::lemma_code_of_query(bytes[2]);
        assert(q.wire(order) =~= bytes);
    }
}

/// What comes of a query for `size` bytes once the driver has answered.
pub open spec fn reply_of(outcome: Result<Seq<u8>, i32>, size: nat) -> Result<Seq<u8>, QueryError> {
    match outcome {
        Err(code) => Err(QueryError::Os(code)),
        Ok(buffer) => if buffer.len() == size {
            Ok(buffer)
        } else {
            Err(QueryError::ReplyLength)
        },
    }
}

/// What a transport saw of one query, from what the system call gave it.
///
/// The call returns -1 when it failed, and the OS error code then says why;
/// any other return is a success, and `buffer` is what the driver left.
pub open spec fn outcome_of(ret: i32, errno: i32, buffer: Vec<u8>) -> Result<Vec<u8>, i32> {
    if ret == -1 {
        Err(errno)
    } else {
        Ok(buffer)
    }
}

/// What a transport saw of one query, from what the system call gave it:
/// the OS error code when the call returned -1, else the buffer.
pub fn ioctl_outcome(ret: i32, errno: i32, buffer: Vec<u8>) -> (outcome: Result<Vec<u8>, i32>)
    ensures
        outcome == outcome_of(ret, errno, buffer),
{
    if ret == -1 {
        Err(errno)
    } else {
        Ok(buffer)
    }
}

/// An answer of the driver, with the buffer taken as the bytes it holds.
pub open spec fn outcome_view(outcome: Result<Vec<u8>, i32>) -> Result<Seq<u8>, i32> {
    match outcome {
        Ok(buffer) => Ok(buffer@),
        Err(code) => Err(code),
    }
}

/// Reads an answer of the driver to a query for `size` bytes.
pub(crate) fn check_reply(outcome: Result<Vec<u8>, i32>, size: usize) -> (reply: Result<
    Vec<u8>,
    QueryError,
>)
    ensures
        match reply_of(outcome_view(outcome), size as nat) {
            Ok(bytes) => reply matches Ok(buffer) && buffer@ == bytes,
            Err(error) => reply == Err::<Vec<u8>, QueryError>(error),
        },
{
    match outcome {
        Err(code) => Err(QueryError::Os(code)),
        Ok(buffer) => {
            if buffer.len() == size {
                Ok(buffer)
            } else {
                Err(QueryError::ReplyLength)
            }
        },
    }
}

/// Reads an answer of the driver into the buffer that the query was made
/// from. The answer must hold as many bytes as the buffer; on a failure the
/// buffer stays as it is.
pub fn reply_into<const SIZE: usize>(
    outcome: Result<Vec<u8>, i32>,
    data: &mut [u8; SIZE],
) -> (reply: Result<(), QueryError>)
    ensures
        match reply_of(outcome_view(outcome), SIZE as nat) {
            Ok(bytes) => reply == Ok::<(), QueryError>(()) && final(data)@ == bytes,
            Err(error) => reply == Err::<(), QueryError>(error) && *final(data) == *old(data),
        },
{
    match check_reply(outcome, SIZE) {
        Ok(buffer) => {
            let mut i: usize = 0;
            while i < SIZE
                invariant
                    i <= SIZE == buffer@.len() == data@.len(),
                    data@.take(i as int) == buffer@.take(i as int),
                decreases SIZE - i,
            {
                data[i] = buffer[i];
                i = i + 1;
                assert(data@.take(i as int) =~= buffer@.take(i as int));
            }
            assert(data@.take(SIZE as int) =~= data@);
            assert(buffer@.take(SIZE as int) =~= buffer@);
            Ok(())
        },
        Err(error) => Err(error),
    }
}

/// One control query: the value that a transport carries to the driver.
#[derive(Debug, PartialEq, Eq)]
pub struct XuControlQuery {
    unit: u8,
    selector: u8,
    query: XuQuery,
    data: Vec<u8>,
}

impl View for XuControlQuery {
    type V = QueryView;

    closed spec fn view(&self) -> QueryView {
        QueryView { unit: self.unit, selector: self.selector, query: self.query, data: self.data@ }
    }
}

impl Clone for XuControlQuery {
    fn clone(&self) -> (copy: XuControlQuery)
        ensures
            copy@ == self@,
    {
        proof {
            use_type_invariant(self);
        }
        XuControlQuery {
            unit: self.unit,
            selector: self.selector,
            query: self.query,
            data: self.data.clone(),
        }
    }
}

impl XuControlQuery {
    /// The number of bytes in front of the buffer of an encoded query.
    pub const HEADER_SIZE: usize = 5;

    /// The most bytes a buffer can have.
    pub const MAX_DATA: usize = 0xFFFF;

    #[verifier::type_invariant]
    spec fn size_fits(&self) -> bool {
        self.data@.len() <= u16::MAX
    }

    /// Makes a query from its fields. The size is taken from `data`; there is
    /// no query, and `None` is returned, when `data` is longer than the size
    /// field can say.
    pub fn new(unit: u8, selector: u8, query: XuQuery, data: Vec<u8>) -> (made: Option<
        XuControlQuery,
    >)
        ensures
            made is Some <==> data@.len() <= XuControlQuery::MAX_DATA,
            made matches Some(q) ==> q@ == (QueryView { unit, selector, query, data: data@ })
                && q@.wf(),
    {
        if data.len() <= Self::MAX_DATA {
            Some(XuControlQuery::with_buffer(unit, selector, query, data))
        } else {
            None
        }
    }

    /// Makes a query whose buffer is known to fit the size field.
    pub(crate) fn with_buffer(unit: u8, selector: u8, query: XuQuery, data: Vec<u8>) -> (made:
        XuControlQuery)
        requires
            data@.len() <= XuControlQuery::MAX_DATA,
        ensures
            made@ == (QueryView { unit, selector, query, data: data@ }),
            made@.wf(),
    {
        XuControlQuery { unit, selector, query, data }
    }

    /// The extension unit that is addressed.
    pub fn unit(&self) -> (unit: u8)
        ensures
            unit == self@.unit,
    {
        self.unit
    }

    /// The control of that unit.
    pub fn selector(&self) -> (selector: u8)
        ensures
            selector == self@.selector,
    {
        self.selector
    }

    /// The operation asked of the control.
    pub fn query(&self) -> (query: XuQuery)
        ensures
            query == self@.query,
    {
        self.query
    }

    /// The size that the query declares: the length of its buffer.
    pub fn size(&self) -> (size: u16)
        ensures
            size == self@.size(),
            self@.wf(),
    {
        proof {
            use_type_invariant(self);
        }
        self.data.len() as u16
    }

    /// The buffer that goes with the operation.
    pub fn data(&self) -> (data: &[u8])
        ensures
            data@ == self@.data,
    {
        self.data.as_slice()
    }

    /// The five header bytes, with the size field in the given byte order.
    pub fn header(&self, order: ByteOrder) -> (header: [u8; 5])
        ensures
            header@ == self@.header(order),
            self@.wf(),
    {
        let size = self.size();
        let low = (size % 256) as u8;
        let high = (size / 256) as u8;
        proof {
            reveal_with_fuel(le_bytes, 3);
            assert(le_bytes(size as nat, 2) =~= seq![low, high]);
            assert(seq![low, high].reverse() =~= seq![high, low]);
        }
        let header = match order {
            ByteOrder::LittleEndian => [self.unit, self.selector, self.query.code(), low, high],
            ByteOrder::BigEndian => [self.unit, self.selector, self.query.code(), high, low],
        };
        assert(header@ =~= self@.header(order));
        header
    }

    /// The query on the wire: the header, then the buffer.
    pub fn encode(&self, order: ByteOrder) -> (bytes: Vec<u8>)
        ensures
            bytes@ == self@.wire(order),
            self@.wf(),
            bytes@.len() == XuControlQuery::HEADER_SIZE + self@.size(),
            order.size_value(bytes@.subrange(3, 5)) == self@.size(),
            bytes@.skip(XuControlQuery::HEADER_SIZE as int) == self@.data,
    {
        let header = self.header(order);
        proof {
            self@.lemma_size_field(order);
        }
        let mut bytes: Vec<u8> = Vec::with_capacity(Self::HEADER_SIZE + self.data.len());
        let mut i: usize = 0;
        while i < 5
            invariant
                i <= 5,
                bytes@ == header@.take(i as int),
            decreases 5 - i,
        {
            bytes.push(header[i]);
            i = i + 1;
            assert(bytes@ =~= header@.take(i as int));
        }
        assert(header@.take(5) =~= header@);
        let n = self.data.len();
        let mut j: usize = 0;
        while j < n
            invariant
                j <= n == self.data@.len(),
                bytes@ == header@ + self.data@.take(j as int),
            decreases n - j,
        {
            bytes.push(self.data[j]);
            j = j + 1;
            assert(bytes@ =~= header@ + self.data@.take(j as int));
        }
        assert(self.data@.take(n as int) =~= self.data@);
        bytes
    }

    /// Reads a query off the wire.
    ///
    /// The bytes must be a header with a known query code, followed by as many
    /// bytes as the size field says, and by nothing else.
    pub fn decode(bytes: &[u8], order: ByteOrder) -> (decoded: Result<XuControlQuery, DecodeError>)
        ensures
            match QueryView::of_wire(bytes@, order) {
                Ok(view) => decoded matches Ok(q) && q@ == view && view.wf(),
                Err(error) => decoded == Err::<XuControlQuery, DecodeError>(error),
            },
    {
        if bytes.len() < Self::HEADER_SIZE {
            return Err(DecodeError::Truncated);
        }
        let query = match XuQuery::from_code(bytes[2]) {
            Some(query) => query,
            None => {
                return Err(DecodeError::UnknownQuery(bytes[2]));
            },
        };
        let size: usize = match order {
            ByteOrder::LittleEndian => bytes[3] as usize + 256 * (bytes[4] as usize),
            ByteOrder::BigEndian => bytes[4] as usize + 256 * (bytes[3] as usize),
        };
        proof {
            let field = bytes@.subrange(3, 5);
            reveal_with_fuel(le_value, 3);
            assert(field.reverse() =~= seq![field[1], field[0]]);
            assert(field.drop_first() =~= seq![field[1]]);
            assert(field.reverse().drop_first() =~= seq![field[0]]);
            assert(seq![field[1]].drop_first() =~= Seq::<u8>::empty());
            assert(seq![field[0]].drop_first() =~= Seq::<u8>::empty());
            assert(size == order.size_value(field));
        }
        if size != bytes.len() - Self::HEADER_SIZE {
            return Err(DecodeError::SizeMismatch);
        }
        let len = bytes.len();
        let mut data: Vec<u8> = Vec::with_capacity(size);
        let mut i: usize = 0;
        while i < size
            invariant
                i <= size,
                size + 5 == bytes@.len() == len,
                data@ == bytes@.subrange(5, 5 + i),
            decreases size - i,
        {
            data.push(bytes[Self::HEADER_SIZE + i]);
            i = i + 1;
            assert(data@ =~= bytes@.subrange(5, 5 + i));
        }
        assert(data@ =~= bytes@.skip(5));
        Ok(XuControlQuery { unit: bytes[0], selector: bytes[1], query, data })
    }

    /// Reads the answer of the driver to this query.
    ///
    /// `outcome` is what the transport saw: the buffer as the driver left it,
    /// or the OS error code of the failed call. A failure is passed on with
    /// its code. A buffer is passed on as it is when it has the size that the
    /// query declared.
    pub fn complete(&self, outcome: Result<Vec<u8>, i32>) -> (reply: Result<Vec<u8>, QueryError>)
        ensures
            match self@.completed(outcome_view(outcome)) {
                Ok(bytes) => reply matches Ok(buffer) && buffer@ == bytes,
                Err(error) => reply == Err::<Vec<u8>, QueryError>(error),
            },
    {
        check_reply(outcome, self.data.len())
    }
}

} // verus!
