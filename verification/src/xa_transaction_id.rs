//! The id of one branch of a distributed transaction, and its binary form.

use crate::le::{read_i32_le, write_i32_le};
use crate::xa_error::XaError;
use vstd::prelude::*;
use vstd::slice::{slice_subrange, slice_to_vec};
use vstd::std_specs::cmp::PartialEqSpecImpl;
use vstd::string::StringExecFns;

verus! {

/// Maximum size in bytes of the global transaction id.
pub const MAX_BYTES_GLOBAL_TRANSACTION_ID: usize = 64;

/// Maximum size in bytes of the branch qualifier.
pub const MAX_BYTES_BRANCH_QUALIFIER: usize = 64;

/// The size in bytes of the binary form with padding: the size of the XA
/// structure in C, its three numbers counted.
pub const XID_PADDED_SIZE: usize = 128;

/// The size in bytes of the three numbers at the start of the binary form.
pub const XID_HEADER_SIZE: usize = 12;

/// The failure of `std::io`. The binary form is written into memory, where
/// nothing can fail, so no value of this type is ever made here.
#[verifier::external_type_specification]
#[verifier::external_body]
pub struct ExIoError(std::io::Error);

/// The number of zero bytes that the padding adds to byte sequences of the
/// lengths `global_len` and `branch_len`: what they and the three numbers
/// before them leave of 128 bytes. Where they leave nothing, because the two
/// sequences have more than 116 bytes together, the padding adds nothing.
pub open spec fn padding_for(global_len: int, branch_len: int) -> nat {
    if XID_HEADER_SIZE + global_len + branch_len <= XID_PADDED_SIZE {
        (XID_PADDED_SIZE - XID_HEADER_SIZE - global_len - branch_len) as nat
    } else {
        0
    }
}

/// What a transaction id is: a format id and two byte sequences.
pub struct Xid {
    /// -1 for the NULL id, otherwise a number of the caller's choice, not
    /// negative.
    pub format_id: int,
    /// Identifies the global transaction.
    pub global_tid: Seq<u8>,
    /// Identifies the branch within the global transaction.
    pub branch_qualifier: Seq<u8>,
}

impl Xid {
    /// The NULL id.
    pub open spec fn null() -> Xid {
        Xid { format_id: -1, global_tid: Seq::empty(), branch_qualifier: Seq::empty() }
    }

    /// Why these three components do not make a transaction id, if they do
    /// not: the first of the three bounds that is broken.
    pub open spec fn rejection(self) -> Option<XaError> {
        if self.format_id < -1 {
            Some(XaError::Usage("Bad XA transaction id: invalid format-id"))
        } else if self.global_tid.len() > MAX_BYTES_GLOBAL_TRANSACTION_ID {
            Some(XaError::Usage("Invalid global ta id (too long)"))
        } else if self.branch_qualifier.len() > MAX_BYTES_BRANCH_QUALIFIER {
            Some(XaError::Usage("Invalid branch_qualifier (too long)"))
        } else {
            None
        }
    }

    /// The number of zero bytes that the padding adds.
    pub open spec fn padding_len(self) -> nat {
        padding_for(self.global_tid.len() as int, self.branch_qualifier.len() as int)
    }

    /// The binary form: the format id, the length of the global transaction
    /// id and the length of the branch qualifier, each as a signed number of
    /// four bytes, least significant byte first; then the bytes of the global
    /// transaction id and those of the branch qualifier; and with `padding`
    /// as many zero bytes as make the whole 128 bytes long. A binary form
    /// that is longer than that without them gets none.
    pub open spec fn encoding(self, padding: bool) -> Seq<u8> {
        crate::le::le_bytes_i32(self.format_id as i32) + crate::le::le_bytes_i32(
            self.global_tid.len() as i32,
        ) + crate::le::le_bytes_i32(self.branch_qualifier.len() as i32) + self.global_tid
            + self.branch_qualifier + (if padding {
            Seq::new(self.padding_len(), |i: int| 0u8)
        } else {
            Seq::empty()
        })
    }

    /// The description of the id for messages, for a type of ids that is
    /// called `title` and calls the global transaction id `global_name`.
    pub open spec fn description(self, title: Seq<char>, global_name: Seq<char>) -> Seq<char> {
        description_from(
            title,
            global_name,
            self.format_id,
            decimal_text(self.format_id),
            bytes_text(self.global_tid),
            bytes_text(self.branch_qualifier),
        )
    }

    /// The length of the binary form: 128 bytes with `padding`, where the
    /// three numbers and the two byte sequences fit into them, and otherwise
    /// the twelve bytes of the three numbers and the two byte sequences.
    pub open spec fn encoded_len(self, padding: bool) -> nat {
        if padding && XID_HEADER_SIZE + self.global_tid.len() + self.branch_qualifier.len()
            <= XID_PADDED_SIZE {
            XID_PADDED_SIZE as nat
        } else {
            (XID_HEADER_SIZE + self.global_tid.len() + self.branch_qualifier.len()) as nat
        }
    }

    /// The bounds that every transaction id keeps.
    pub open spec fn wf(self) -> bool {
        &&& -1 <= self.format_id <= i32::MAX
        &&& self.global_tid.len() <= MAX_BYTES_GLOBAL_TRANSACTION_ID
        &&& self.branch_qualifier.len() <= MAX_BYTES_BRANCH_QUALIFIER
    }
}

/// Why bytes are not the binary form of transaction ids.
pub enum Malformed {
    /// The bytes end before the binary form does.
    Truncated,
    /// The length of the global transaction id is negative.
    NegativeGlobalTidLength,
    /// The length of the branch qualifier is negative.
    NegativeBranchQualifierLength,
    /// The three components are all there and do not make a transaction id,
    /// for the reason that this error gives.
    Rejected(XaError),
}

impl Malformed {
    /// Whether `e` is the error that reports this.
    pub open spec fn is_reported_by(self, e: XaError) -> bool {
        match self {
            Malformed::Truncated => e matches XaError::ReadXid(s) && s@
                == "failed to fill whole buffer"@,
            Malformed::NegativeGlobalTidLength => e matches XaError::ReadXid(s) && s@
                == "Negative global tid length"@,
            Malformed::NegativeBranchQualifierLength => e matches XaError::ReadXid(s) && s@
                == "Negative branch qualifier length"@,
            Malformed::Rejected(u) => e matches XaError::ReadXid(s) && s@ == u.description(),
        }
    }
}

/// Reads one transaction id from the start of `bytes`: the id and the
/// number of bytes that its binary form takes, or why there is none.
///
/// With `padding` the zero bytes behind the two byte sequences belong to
/// the binary form; their values are not looked at. Where the two lengths
/// add up to more than 116, so that the binary form has more than 128 bytes
/// without it, there is no padding to skip.
pub open spec fn decode(bytes: Seq<u8>, padding: bool) -> Result<(Xid, int), Malformed> {
    let format_id = crate::le::le_value_i32(bytes.subrange(0, 4));
    let global_len = crate::le::le_value_i32(bytes.subrange(4, 8));
    let branch_len = crate::le::le_value_i32(bytes.subrange(8, 12));
    if bytes.len() < 8 {
        Err(Malformed::Truncated)
    } else if global_len < 0 {
        Err(Malformed::NegativeGlobalTidLength)
    } else if bytes.len() < 12 {
        Err(Malformed::Truncated)
    } else if branch_len < 0 {
        Err(Malformed::NegativeBranchQualifierLength)
    } else {
        let xid = Xid {
            format_id: format_id as int,
            global_tid: bytes.subrange(12, 12 + global_len),
            branch_qualifier: bytes.subrange(12 + global_len, 12 + global_len + branch_len),
        };
        let used = 12 + global_len + branch_len + (if padding {
            padding_for(global_len as int, branch_len as int)
        } else {
            0
        });
        if bytes.len() < used {
            Err(Malformed::Truncated)
        } else {
            match xid.rejection() {
                Some(e) => Err(Malformed::Rejected(e)),
                None => Ok((xid, used)),
            }
        }
    }
}

/// What was read before, followed by what is read next, if that can be read.
pub open spec fn read_after(before: Seq<Xid>, next: Result<Seq<Xid>, Malformed>) -> Result<
    Seq<Xid>,
    Malformed,
> {
    match next {
        Ok(ids) => Ok(before + ids),
        Err(m) => Err(m),
    }
}

/// Reads `count` transaction ids from `bytes`, one behind the other, or
/// says why the first that cannot be read cannot be. Bytes behind the last
/// id are not looked at.
pub open spec fn decode_all(bytes: Seq<u8>, count: nat, padding: bool) -> Result<
    Seq<Xid>,
    Malformed,
>
    decreases count,
{
    if count == 0 {
        Ok(Seq::empty())
    } else {
        match decode(bytes, padding) {
            Err(m) => Err(m),
            Ok((xid, used)) => read_after(
                seq![xid],
                decode_all(bytes.skip(used), (count - 1) as nat, padding),
            ),
        }
    }
}

/// The binary forms of `ids`, one behind the other.
pub open spec fn encoding_of_all(ids: Seq<Xid>, padding: bool) -> Seq<u8>
    decreases ids.len(),
{
    if ids.len() == 0 {
        Seq::empty()
    } else {
        ids[0].encoding(padding) + encoding_of_all(ids.skip(1), padding)
    }
}

/// The ID of a distributed transaction, in analogy to the
/// [X/Open XA standard](http://pubs.opengroup.org/onlinepubs/009680699/toc.pdf).
///
/// A value never changes after it was made, and always keeps the bounds of
/// [`Xid::wf`].
#[derive(Debug)]
pub struct XaTransactionId {
    format_id: i32,
    global_tid: Vec<u8>,
    branch_qualifier: Vec<u8>,
}

impl View for XaTransactionId {
    type V = Xid;

    closed spec fn view(&self) -> Xid {
        Xid {
            format_id: self.format_id as int,
            global_tid: self.global_tid@,
            branch_qualifier: self.branch_qualifier@,
        }
    }
}

/// Two ids are equal where all three components are.
impl PartialEq for XaTransactionId {
    fn eq(&self, other: &XaTransactionId) -> (equal: bool) {
        let equal = self.format_id == other.format_id && self.global_tid == other.global_tid
            && self.branch_qualifier == other.branch_qualifier;
        proof {
            if equal {
                assert(self.global_tid@ =~= other.global_tid@);
                assert(self.branch_qualifier@ =~= other.branch_qualifier@);
            }
        }
        equal
    }
}

impl PartialEqSpecImpl for XaTransactionId {
    open spec fn obeys_eq_spec() -> bool {
        true
    }

    open spec fn eq_spec(&self, other: &XaTransactionId) -> bool {
        self@ == other@
    }
}

impl Eq for XaTransactionId {

}

impl Clone for XaTransactionId {
    fn clone(&self) -> (copy: XaTransactionId)
        ensures
            copy@ == self@,
    {
        proof {
            use_type_invariant(self);
        }
        XaTransactionId {
            format_id: self.format_id,
            global_tid: self.global_tid.clone(),
            branch_qualifier: self.branch_qualifier.clone(),
        }
    }
}

impl XaTransactionId {
    #[verifier::type_invariant]
    spec fn within_bounds(&self) -> bool {
        self@.wf()
    }

    /// Creates an instance of `XaTransactionId` from the three components
    /// `format_id`, `global_tid`, and `branch_qualifier`.
    ///
    /// Note that the lengths of the binary parameters must not exceed `64`.
    ///
    /// XA uses a signed int for the `format_id`, but recommends using only -1,
    /// 0, and positive values, where -1 is used to represent the NULL
    /// value.
    ///
    /// # Errors
    ///
    /// `XaError::Usage` if one of the parameters is ill-formed.
    pub fn try_new(format_id: i32, global_tid: Vec<u8>, branch_qualifier: Vec<u8>) -> (r: Result<
        XaTransactionId,
        XaError,
    >)
        ensures
            match (Xid {
                format_id: format_id as int,
                global_tid: global_tid@,
                branch_qualifier: branch_qualifier@,
            }).rejection() {
                Some(e) => r == Err::<XaTransactionId, XaError>(e),
                None => r is Ok && r->Ok_0@ == (Xid {
                    format_id: format_id as int,
                    global_tid: global_tid@,
                    branch_qualifier: branch_qualifier@,
                }),
            },
    {
        if format_id < -1 {
            Err(XaError::Usage("Bad XA transaction id: invalid format-id"))
        } else if global_tid.len() > MAX_BYTES_GLOBAL_TRANSACTION_ID {
            Err(XaError::Usage("Invalid global ta id (too long)"))
        } else if branch_qualifier.len() > MAX_BYTES_BRANCH_QUALIFIER {
            Err(XaError::Usage("Invalid branch_qualifier (too long)"))
        } else {
            Ok(XaTransactionId { format_id, global_tid, branch_qualifier })
        }
    }

    /// Creates an instance of `XaTransactionId` that represents NULL.
    #[must_use]
    pub fn null_ta() -> (id: XaTransactionId)
        ensures
            id@ == Xid::null(),
    {
        XaTransactionId { format_id: -1, global_tid: Vec::new(), branch_qualifier: Vec::new() }
    }

    /// Returns the `format_id`.
    #[must_use]
    pub fn get_format_id(&self) -> (format_id: i32)
        ensures
            format_id == self@.format_id,
            format_id >= -1,
    {
        proof {
            use_type_invariant(self);
        }
        self.format_id
    }

    /// Returns a reference to the global transaction id.
    #[must_use]
    pub fn get_global_tid(&self) -> (global_tid: &Vec<u8>)
        ensures
            global_tid@ == self@.global_tid,
            global_tid@.len() <= MAX_BYTES_GLOBAL_TRANSACTION_ID,
    {
        proof {
            use_type_invariant(self);
        }
        &self.global_tid
    }

    /// Returns a reference to the branch qualifier.
    #[must_use]
    pub fn get_branch_qualifier(&self) -> (branch_qualifier: &Vec<u8>)
        ensures
            branch_qualifier@ == self@.branch_qualifier,
            branch_qualifier@.len() <= MAX_BYTES_BRANCH_QUALIFIER,
    {
        proof {
            use_type_invariant(self);
        }
        &self.branch_qualifier
    }
}

/// Writes the binary form of the transaction id with these three components.
pub(crate) fn encode(
    format_id: i32,
    global_tid: &Vec<u8>,
    branch_qualifier: &Vec<u8>,
    padding: bool,
) -> (bytes: Vec<u8>)
    requires
        global_tid@.len() <= MAX_BYTES_GLOBAL_TRANSACTION_ID,
        branch_qualifier@.len() <= MAX_BYTES_BRANCH_QUALIFIER,
    ensures
        bytes@ == (Xid {
            format_id: format_id as int,
            global_tid: global_tid@,
            branch_qualifier: branch_qualifier@,
        }).encoding(padding),
{
    let mut result = Vec::<u8>::with_capacity(128);
    let mut header = write_i32_le(format_id);
    let mut global_len = write_i32_le(global_tid.len() as i32);
    let mut branch_len = write_i32_le(branch_qualifier.len() as i32);
    result.append(&mut header);
    result.append(&mut global_len);
    result.append(&mut branch_len);
    result.extend_from_slice(global_tid.as_slice());
    result.extend_from_slice(branch_qualifier.as_slice());
    let ghost unpadded = result@;
    if padding {
        let used = XID_HEADER_SIZE + global_tid.len() + branch_qualifier.len();
        let missing = if used <= XID_PADDED_SIZE {
            XID_PADDED_SIZE - used
        } else {
            0
        };
        let mut i: usize = 0;
        while i < missing
            invariant
                i <= missing,
                result@ == unpadded + Seq::new(i as nat, |k: int| 0u8),
            decreases missing - i,
        {
            result.push(0);
            i = i + 1;
        }
    }
    result
}

/// The decimal form of `n`, as `format!` writes a number.
pub uninterp spec fn decimal_text(n: int) -> Seq<char>;

/// The text of the bytes `bytes`, as `format!` writes a vector of bytes for
/// debugging.
pub uninterp spec fn bytes_text(bytes: Seq<u8>) -> Seq<char>;

/// Calls `format!` with `{}` on a number. Claimed, not proved: the text
/// depends on nothing but the number.
#[verifier::external_body]
fn format_decimal(n: i32) -> (text: String)
    ensures
        text@ == decimal_text(n as int),
{
    format!("{}", n)
}

/// Calls `format!` with `{:?}` on a vector of bytes. Claimed, not proved: the
/// text depends on nothing but the bytes.
#[verifier::external_body]
fn format_bytes(bytes: &Vec<u8>) -> (text: String)
    ensures
        text@ == bytes_text(bytes@),
{
    format!("{:?}", bytes)
}

/// The description of an id whose components read `format_id_text`,
/// `global_text` and `branch_text`: the NULL id is called so, and of another
/// the three components stand behind their names.
pub open spec fn description_from(
    title: Seq<char>,
    global_name: Seq<char>,
    format_id: int,
    format_id_text: Seq<char>,
    global_text: Seq<char>,
    branch_text: Seq<char>,
) -> Seq<char> {
    if format_id == -1 {
        title + " {NULL}"@
    } else {
        title + " {format_id: "@ + format_id_text + ", "@ + global_name + ": "@ + global_text
            + ", branch_qualifier: "@ + branch_text + " }"@
    }
}

/// Puts the description of an id together from the texts of its components.
pub fn assemble_description(
    title: &str,
    global_name: &str,
    format_id: i32,
    format_id_text: &str,
    global_text: &str,
    branch_text: &str,
) -> (text: String)
    ensures
        text@ == description_from(
            title@,
            global_name@,
            format_id as int,
            format_id_text@,
            global_text@,
            branch_text@,
        ),
{
    let mut text = String::from_str(title);
    if format_id == -1 {
        text.append(" {NULL}");
    } else {
        text.append(" {format_id: ");
        text.append(format_id_text);
        text.append(", ");
        text.append(global_name);
        text.append(": ");
        text.append(global_text);
        text.append(", branch_qualifier: ");
        text.append(branch_text);
        text.append(" }");
    }
    text
}

/// The description of the transaction id with these three components, for
/// a type of ids that is called `title` and calls the global transaction id
/// `global_name`.
pub(crate) fn describe_parts(
    title: &str,
    global_name: &str,
    format_id: i32,
    global_tid: &Vec<u8>,
    branch_qualifier: &Vec<u8>,
) -> (text: String)
    ensures
        text@ == (Xid {
            format_id: format_id as int,
            global_tid: global_tid@,
            branch_qualifier: branch_qualifier@,
        }).description(title@, global_name@),
{
    let format_id_text = format_decimal(format_id);
    let global_text = format_bytes(global_tid);
    let branch_text = format_bytes(branch_qualifier);
    assemble_description(
        title,
        global_name,
        format_id,
        format_id_text.as_str(),
        global_text.as_str(),
        branch_text.as_str(),
    )
}

/// What the ids in `ids` are.
pub open spec fn xids(ids: Seq<XaTransactionId>) -> Seq<Xid> {
    ids.map_values(|id: XaTransactionId| id@)
}

impl XaTransactionId {
    /// Provides a binary representation.
    /// If padding is true, and the combined length of the binary fields is
    /// below 128 bytes, the missing number of zero bytes are appended to
    /// make the byte pattern compatible with the XA structure in C.
    ///
    /// # Errors
    ///
    /// None: the result is always `Ok`.
    pub fn as_bytes(&self, padding: bool) -> (r: Result<Vec<u8>, std::io::Error>)
        ensures
            r is Ok,
            r->Ok_0@ == self@.encoding(padding),
            r->Ok_0@.len() == self@.encoded_len(padding),
    {
        proof {
            use_type_invariant(self);
            lemma_encoding_len(self@, padding);
        }
        Ok(encode(self.format_id, &self.global_tid, &self.branch_qualifier, padding))
    }

    /// A description of the id for messages: `XaTransactionId {NULL}` for
    /// the NULL id, and otherwise the three components by their names, the
    /// format id as a decimal and each byte sequence as a list of decimals.
    pub fn describe(&self) -> (text: String)
        ensures
            text@ == self@.description("XaTransactionId"@, "global_tid"@),
    {
        describe_parts(
            "XaTransactionId",
            "global_tid",
            self.format_id,
            &self.global_tid,
            &self.branch_qualifier,
        )
    }

    /// Reads the transaction id whose binary form starts at `pos`.
    fn parse_one(bytes: &[u8], pos: usize, padding: bool) -> (r: Result<
        (XaTransactionId, usize),
        XaError,
    >)
        requires
            pos <= bytes@.len(),
        ensures
            match decode(bytes@.skip(pos as int), padding) {
                Ok((xid, used)) => r is Ok && r->Ok_0.0@ == xid && r->Ok_0.1 == pos + used,
                Err(m) => r is Err && m.is_reported_by(r->Err_0),
            },
    {
        let ghost rest = bytes@.skip(pos as int);
        let left = bytes.len() - pos;
        if left < 4 {
            return Err(XaError::ReadXid("failed to fill whole buffer".to_owned()));
        }
        let format_id = read_i32_le(slice_subrange(bytes, pos, pos + 4));
        if left < 8 {
            return Err(XaError::ReadXid("failed to fill whole buffer".to_owned()));
        }
        let global_len = read_i32_le(slice_subrange(bytes, pos + 4, pos + 8));
        if global_len < 0 {
            return Err(XaError::ReadXid("Negative global tid length".to_owned()));
        }
        if left < 12 {
            return Err(XaError::ReadXid("failed to fill whole buffer".to_owned()));
        }
        let branch_len = read_i32_le(slice_subrange(bytes, pos + 8, pos + 12));
        if branch_len < 0 {
            return Err(XaError::ReadXid("Negative branch qualifier length".to_owned()));
        }
        let global_len = global_len as usize;
        let branch_len = branch_len as usize;
        let free = XID_PADDED_SIZE - XID_HEADER_SIZE;
        let missing = if padding && global_len <= free && branch_len <= free - global_len {
            free - global_len - branch_len
        } else {
            0
        };
        if left - 12 < global_len || left - 12 - global_len < branch_len || left - 12 - global_len
            - branch_len < missing {
            return Err(XaError::ReadXid("failed to fill whole buffer".to_owned()));
        }
        let data = pos + 12;
        let global_tid = slice_to_vec(slice_subrange(bytes, data, data + global_len));
        let branch_qualifier = slice_to_vec(
            slice_subrange(bytes, data + global_len, data + global_len + branch_len),
        );
        assert(global_tid@ =~= rest.subrange(12, 12 + global_len));
        assert(branch_qualifier@ =~= rest.subrange(12 + global_len, 12 + global_len + branch_len));
        match XaTransactionId::try_new(format_id, global_tid, branch_qualifier) {
            Ok(id) => Ok((id, data + global_len + branch_len + missing)),
            Err(e) => Err(XaError::ReadXid(e.get_description())),
        }
    }

    /// Reads a Vec of instances from a binary representation.
    /// If padding is true, and the combined length of the binary fields is
    /// below 128 bytes, the missing number of bytes are skipped to make
    /// the byte pattern compatible with the XA structure in C.
    ///
    /// # Errors
    ///
    /// `XaError::ReadXid` in every case: where the bytes end too early, hold
    /// a negative length, or hold components that are no transaction id. The
    /// description says which.
    pub fn parse(bytes: &[u8], count: u64, padding: bool) -> (r: Result<
        Vec<XaTransactionId>,
        XaError,
    >)
        ensures
            match decode_all(bytes@, count as nat, padding) {
                Ok(ids) => r is Ok && xids(r->Ok_0@) == ids,
                Err(m) => r is Err && m.is_reported_by(r->Err_0),
            },
            r is Err ==> r->Err_0 is ReadXid,
    {
        let mut result = Vec::<XaTransactionId>::new();
        let mut pos: usize = 0;
        let mut i: u64 = 0;
        assert(bytes@.skip(0) =~= bytes@);
        while i < count
            invariant
                i <= count,
                pos <= bytes@.len(),
                decode_all(bytes@, count as nat, padding) == read_after(
                    xids(result@),
                    decode_all(bytes@.skip(pos as int), (count - i) as nat, padding),
                ),
            decreases count - i,
        {
            let ghost done = xids(result@);
            let ghost rest = bytes@.skip(pos as int);
            match XaTransactionId::parse_one(bytes, pos, padding) {
                Ok((id, next)) => {
                    proof {
                        let used = next - pos;
                        assert(rest.skip(used) =~= bytes@.skip(next as int));
                        let tail = decode_all(
                            bytes@.skip(next as int),
                            (count - i - 1) as nat,
                            padding,
                        );
                        assert(xids(result@.push(id)) =~= done.push(
                            id@,
                        ));
                        if let Ok(ids) = tail {
                            assert(done + (seq![id@] + ids) =~= done.push(id@) + ids);
                        }
                    }
                    result.push(id);
                    pos = next;
                },
                Err(e) => {
                    return Err(e);
                },
            }
            i = i + 1;
        }
        Ok(result)
    }
}

/// The binary form of a transaction id has 128 bytes with the padding,
/// where the two byte sequences have at most 116 bytes together, and
/// otherwise twelve bytes more than the two byte sequences.
pub proof fn lemma_encoding_len(xid: Xid, padding: bool)
    requires
        xid.wf(),
    ensures
        xid.encoding(padding).len() == xid.encoded_len(padding),
        padding && xid.global_tid.len() + xid.branch_qualifier.len() <= 116 ==> xid.encoding(
            padding,
        ).len() == 128,
        !padding ==> xid.encoding(padding).len() == 12 + xid.global_tid.len()
            + xid.branch_qualifier.len(),
{
    crate::le::lemma_le_i32_value_of_bytes(xid.format_id as i32);
    crate::le::lemma_le_i32_value_of_bytes(xid.global_tid.len() as i32);
    crate::le::lemma_le_i32_value_of_bytes(xid.branch_qualifier.len() as i32);
}

/// Reading the binary form of a transaction id gives the id back, whatever
/// follows it, with the padding and without.
pub proof fn lemma_decode_encoding(xid: Xid, padding: bool, rest: Seq<u8>)
    requires
        xid.wf(),
    ensures
        decode(xid.encoding(padding) + rest, padding) == Ok::<(Xid, int), Malformed>(
            (xid, xid.encoding(padding).len() as int),
        ),
{
    let format_id = xid.format_id as i32;
    let global_len = xid.global_tid.len() as i32;
    let branch_len = xid.branch_qualifier.len() as i32;
    crate::le::lemma_le_i32_value_of_bytes(format_id);
    crate::le::lemma_le_i32_value_of_bytes(global_len);
    crate::le::lemma_le_i32_value_of_bytes(branch_len);
    lemma_encoding_len(xid, padding);
    let bytes = xid.encoding(padding) + rest;
    assert(bytes.subrange(12, 12 + global_len) =~= xid.global_tid);
    assert(bytes.subrange(12 + global_len, 12 + global_len + branch_len)
        =~= xid.branch_qualifier);
}

/// Reading several ids is reading the first and then the others.
proof fn lemma_decode_all_step(bytes: Seq<u8>, count: nat, padding: bool, xid: Xid, used: int)
    requires
        count > 0,
        decode(bytes, padding) == Ok::<(Xid, int), Malformed>((xid, used)),
    ensures
        decode_all(bytes, count, padding) == read_after(
            seq![xid],
            decode_all(bytes.skip(used), (count - 1) as nat, padding),
        ),
{
}

/// Reading the binary forms of transaction ids, one behind the other, gives
/// the ids back, with the padding and without.
pub proof fn lemma_decode_all_encodings(ids: Seq<Xid>, padding: bool)
    requires
        forall|k: int| 0 <= k < ids.len() ==> (#[trigger] ids[k]).wf(),
    ensures
        decode_all(encoding_of_all(ids, padding), ids.len(), padding) == Ok::<
            Seq<Xid>,
            Malformed,
        >(ids),
    decreases ids.len(),
{
    if ids.len() > 0 {
        let first = ids[0];
        let others = ids.skip(1);
        let tail = encoding_of_all(others, padding);
        let head = first.encoding(padding);
        let bytes = head + tail;
        lemma_decode_encoding(first, padding, tail);
        lemma_decode_all_encodings(others, padding);
        lemma_decode_all_step(bytes, ids.len(), padding, first, head.len() as int);
        assert(bytes.skip(head.len() as int) =~= tail);
        assert(seq![first] + others =~= ids);
    } else {
        assert(ids =~= Seq::empty());
    }
}

/// The binary form of a transaction id cut short is malformed: no
/// transaction id is read from it.
pub proof fn lemma_decode_truncated(xid: Xid, padding: bool, n: int)
    requires
        xid.wf(),
        0 <= n < xid.encoding(padding).len(),
    ensures
        decode(xid.encoding(padding).take(n), padding) == Err::<(Xid, int), Malformed>(
            Malformed::Truncated,
        ),
{
    let format_id = xid.format_id as i32;
    let global_len = xid.global_tid.len() as i32;
    let branch_len = xid.branch_qualifier.len() as i32;
    crate::le::lemma_le_i32_value_of_bytes(format_id);
    crate::le::lemma_le_i32_value_of_bytes(global_len);
    crate::le::lemma_le_i32_value_of_bytes(branch_len);
    lemma_encoding_len(xid, padding);
}

/// The binary forms of transaction ids, one behind the other and cut
/// short, are malformed: reading as many ids as there were fails.
pub proof fn lemma_decode_all_truncated(ids: Seq<Xid>, padding: bool, n: int)
    requires
        forall|k: int| 0 <= k < ids.len() ==> (#[trigger] ids[k]).wf(),
        0 <= n < encoding_of_all(ids, padding).len(),
    ensures
        decode_all(encoding_of_all(ids, padding).take(n), ids.len(), padding) == Err::<
            Seq<Xid>,
            Malformed,
        >(Malformed::Truncated),
    decreases ids.len(),
{
    let first = ids[0];
    let others = ids.skip(1);
    let head = first.encoding(padding);
    let tail = encoding_of_all(others, padding);
    let bytes = (head + tail).take(n);
    assert(first.wf());
    if n < head.len() {
        assert(bytes =~= head.take(n));
        lemma_decode_truncated(first, padding, n);
    } else {
        let m = n - head.len();
        assert(bytes =~= head + tail.take(m));
        lemma_decode_encoding(first, padding, tail.take(m));
        lemma_decode_all_step(bytes, ids.len(), padding, first, head.len() as int);
        assert(bytes.skip(head.len() as int) =~= tail.take(m));
        assert forall|k: int| 0 <= k < others.len() implies (#[trigger] others[k]).wf() by {
            assert(ids[k + 1].wf());
        }
        lemma_decode_all_truncated(others, padding, m);
    }
}

/// Bytes that hold a negative length are malformed, whatever else they
/// hold: no transaction id is read from them.
pub proof fn lemma_decode_negative_length(bytes: Seq<u8>, padding: bool)
    ensures
        bytes.len() >= 8 && crate::le::le_value_i32(bytes.subrange(4, 8)) < 0 ==> decode(
            bytes,
            padding,
        ) == Err::<(Xid, int), Malformed>(Malformed::NegativeGlobalTidLength),
        bytes.len() >= 12 && crate::le::le_value_i32(bytes.subrange(4, 8)) >= 0
            && crate::le::le_value_i32(bytes.subrange(8, 12)) < 0 ==> decode(bytes, padding)
            == Err::<(Xid, int), Malformed>(Malformed::NegativeBranchQualifierLength),
{
}

} // verus!
