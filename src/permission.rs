//! File system actions and permission modes, and the umask applied to new
//! files and directories.
use vstd::prelude::*;
use crate::conf::Configuration;
use crate::keys::{FS_PERMISSIONS_UMASK_DEFAULT, FS_PERMISSIONS_UMASK_KEY};
use crate::text::str_equal;
use crate::proto::FsPermissionProto;

verus! {

/// File system actions, e.g. read, write, etc. The ordinal of an action is
/// its POSIX bit triple: read is 4, write is 2, execute is 1.
#[derive(Clone, Copy, PartialEq, Eq, Debug, Structural)]
pub enum FsAction {
    NoAccess,
    Execute,
    Write,
    WriteExecute,
    Read,
    ReadExecute,
    ReadWrite,
    All,
}

/// The action whose bit triple is `n` (taken modulo 8).
pub open spec fn action_of(n: u8) -> FsAction {
    match n % 8 {
        0 => FsAction::NoAccess,
        1 => FsAction::Execute,
        2 => FsAction::Write,
        3 => FsAction::WriteExecute,
        4 => FsAction::Read,
        5 => FsAction::ReadExecute,
        6 => FsAction::ReadWrite,
        _ => FsAction::All,
    }
}

/// The symbolic form of the bit triple `n`, such as `r-x` for 5.
pub open spec fn symbol_of(n: u8) -> Seq<char> {
    seq![
        if n & 4 != 0 { 'r' } else { '-' },
        if n & 2 != 0 { 'w' } else { '-' },
        if n & 1 != 0 { 'x' } else { '-' },
    ]
}

impl FsAction {
    /// The bit triple of this action, from 0 to 7.
    pub open spec fn ord(self) -> u8 {
        match self {
            FsAction::NoAccess => 0,
            FsAction::Execute => 1,
            FsAction::Write => 2,
            FsAction::WriteExecute => 3,
            FsAction::Read => 4,
            FsAction::ReadExecute => 5,
            FsAction::ReadWrite => 6,
            FsAction::All => 7,
        }
    }

    pub proof fn lemma_ord_round_trip(self)
        ensures
            self.ord() < 8,
            action_of(self.ord()) == self,
    {
    }

    /// All actions, in the order of their ordinals.
    pub fn values() -> (r: Vec<FsAction>)
        ensures
            r@.len() == 8,
            forall|i: int| 0 <= i < 8 ==> (#[trigger] r@[i]).ord() == i,
    {
        vec![
            FsAction::NoAccess,
            FsAction::Execute,
            FsAction::Write,
            FsAction::WriteExecute,
            FsAction::Read,
            FsAction::ReadExecute,
            FsAction::ReadWrite,
            FsAction::All,
        ]
    }

    /// The action of a bit triple.
    pub fn from_ordinal(n: usize) -> (r: FsAction)
        requires
            n < 8,
        ensures
            r.ord() == n,
            r == action_of(n as u8),
    {
        match n {
            0 => FsAction::NoAccess,
            1 => FsAction::Execute,
            2 => FsAction::Write,
            3 => FsAction::WriteExecute,
            4 => FsAction::Read,
            5 => FsAction::ReadExecute,
            6 => FsAction::ReadWrite,
            _ => FsAction::All,
        }
    }

    pub fn ordinal(&self) -> (r: usize)
        ensures
            r == self.ord() as usize,
    {
        self.bits() as usize
    }

    fn bits(&self) -> (r: u8)
        ensures
            r == self.ord(),
    {
        match self {
            FsAction::NoAccess => 0,
            FsAction::Execute => 1,
            FsAction::Write => 2,
            FsAction::WriteExecute => 3,
            FsAction::Read => 4,
            FsAction::ReadExecute => 5,
            FsAction::ReadWrite => 6,
            FsAction::All => 7,
        }
    }

    /// Symbolic representation, such as `rw-`.
    pub fn symbol(&self) -> (r: String)
        ensures
            r@ == symbol_of(self.ord()),
    {
        let s = match self {
            FsAction::NoAccess => "---",
            FsAction::Execute => "--x",
            FsAction::Write => "-w-",
            FsAction::WriteExecute => "-wx",
            FsAction::Read => "r--",
            FsAction::ReadExecute => "r-x",
            FsAction::ReadWrite => "rw-",
            FsAction::All => "rwx",
        };
        proof {
            reveal_strlit("---");
            reveal_strlit("--x");
            reveal_strlit("-w-");
            reveal_strlit("-wx");
            reveal_strlit("r--");
            reveal_strlit("r-x");
            reveal_strlit("rw-");
            reveal_strlit("rwx");
            assert(0u8 & 4 == 0 && 0u8 & 2 == 0 && 0u8 & 1 == 0) by (bit_vector);
            assert(1u8 & 4 == 0 && 1u8 & 2 == 0 && 1u8 & 1 != 0) by (bit_vector);
            assert(2u8 & 4 == 0 && 2u8 & 2 != 0 && 2u8 & 1 == 0) by (bit_vector);
            assert(3u8 & 4 == 0 && 3u8 & 2 != 0 && 3u8 & 1 != 0) by (bit_vector);
            assert(4u8 & 4 != 0 && 4u8 & 2 == 0 && 4u8 & 1 == 0) by (bit_vector);
            assert(5u8 & 4 != 0 && 5u8 & 2 == 0 && 5u8 & 1 != 0) by (bit_vector);
            assert(6u8 & 4 != 0 && 6u8 & 2 != 0 && 6u8 & 1 == 0) by (bit_vector);
            assert(7u8 & 4 != 0 && 7u8 & 2 != 0 && 7u8 & 1 != 0) by (bit_vector);
        }
        let r = s.to_owned();
        assert(r@ =~= symbol_of(self.ord()));
        r
    }

    /// Return true if this action implies that action: every permission
    /// bit of `that` is set in this one.
    pub fn implies(&self, that: Option<&FsAction>) -> (r: bool)
        ensures
            r == match that {
                Some(t) => self.ord() & t.ord() == t.ord(),
                None => false,
            },
    {
        match that {
            Some(that) => self.bits() & that.bits() == that.bits(),
            None => false,
        }
    }

    /// AND operation.
    pub fn and(&self, that: &FsAction) -> (r: FsAction)
        ensures
            r.ord() == self.ord() & that.ord(),
    {
        let a = self.bits();
        let b = that.bits();
        assert(a < 8 && b < 8 ==> a & b < 8) by (bit_vector);
        FsAction::from_ordinal((a & b) as usize)
    }

    /// OR operation.
    pub fn or(&self, that: &FsAction) -> (r: FsAction)
        ensures
            r.ord() == self.ord() | that.ord(),
    {
        let a = self.bits();
        let b = that.bits();
        assert(a < 8 && b < 8 ==> a | b < 8) by (bit_vector);
        FsAction::from_ordinal((a | b) as usize)
    }

    /// NOT operation.
    pub fn not(&self) -> (r: FsAction)
        ensures
            r.ord() == 7 - self.ord(),
    {
        FsAction::from_ordinal(7 - self.ordinal())
    }

    /// The action whose symbolic representation is `permission`.
    pub fn get_fs_action(permission: &str) -> (r: Option<FsAction>)
        ensures
            match r {
                Some(a) => symbol_of(a.ord()) == permission@,
                None => forall|a: FsAction| symbol_of(#[trigger] a.ord()) != permission@,
            },
    {
        let values = FsAction::values();
        let mut i: usize = 0;
        while i < 8
            invariant
                values@.len() == 8,
                forall|k: int| 0 <= k < 8 ==> (#[trigger] values@[k]).ord() == k,
                i <= 8,
                forall|k: u8| k < i ==> symbol_of(k) != permission@,
            decreases 8 - i,
        {
            let a = values[i];
            if str_equal(a.symbol().as_str(), permission) {
                return Some(a);
            }
            i = i + 1;
        }
        proof {
            assert forall|a: FsAction| symbol_of(#[trigger] a.ord()) != permission@ by {
                a.lemma_ord_round_trip();
            }
        }
        None
    }
}

/// A permission mode: user, group and other actions and the sticky bit.
#[derive(Clone, Copy, PartialEq, Eq, Debug, Structural)]
pub struct FsPermission {
    pub useraction: FsAction,
    pub groupaction: FsAction,
    pub otheraction: FsAction,
    pub sticky_bit: bool,
}

/// The permission whose mode bits are the low ten bits of `n`.
pub open spec fn permission_of(n: u16) -> FsPermission {
    FsPermission {
        useraction: action_of(((n >> 6u16) & 7u16) as u8),
        groupaction: action_of(((n >> 3u16) & 7u16) as u8),
        otheraction: action_of((n & 7u16) as u8),
        sticky_bit: (n >> 9u16) & 1u16 == 1u16,
    }
}

impl FsPermission {
    /// The mode as a number: sticky bit at 512, then three bits per class.
    pub open spec fn mode(self) -> int {
        (if self.sticky_bit { 512int } else { 0int }) + self.useraction.ord() as int * 64
            + self.groupaction.ord() as int * 8 + self.otheraction.ord() as int
    }

    /// What applying `umask` to this permission yields.
    pub open spec fn masked_by(self, umask: FsPermission) -> FsPermission {
        FsPermission {
            useraction: action_of(self.useraction.ord() & (7 - umask.useraction.ord()) as u8),
            groupaction: action_of(self.groupaction.ord() & (7 - umask.groupaction.ord()) as u8),
            otheraction: action_of(self.otheraction.ord() & (7 - umask.otheraction.ord()) as u8),
            sticky_bit: false,
        }
    }

    fn parse_short(n: i16) -> (r: (FsAction, FsAction, FsAction, bool))
        ensures
            r.0 == permission_of(n as u16).useraction,
            r.1 == permission_of(n as u16).groupaction,
            r.2 == permission_of(n as u16).otheraction,
            r.3 == permission_of(n as u16).sticky_bit,
    {
        let m = n as u16;
        assert((m >> 6u16) & 7u16 < 8 && (m >> 3u16) & 7u16 < 8 && m & 7u16 < 8) by (bit_vector);
        (
            FsAction::from_ordinal(((m >> 6u16) & 7u16) as usize),
            FsAction::from_ordinal(((m >> 3u16) & 7u16) as usize),
            FsAction::from_ordinal((m & 7u16) as usize),
            (m >> 9u16) & 1u16 == 1u16,
        )
    }

    /// Construct by the given mode.
    pub fn from_short(mode: i16) -> (r: FsPermission)
        ensures
            r == permission_of(mode as u16),
    {
        let (u, g, o, sb) = FsPermission::parse_short(mode);
        FsPermission { useraction: u, groupaction: g, otheraction: o, sticky_bit: sb }
    }

    pub fn update_short(&mut self, n: i16)
        ensures
            *final(self) == permission_of(n as u16),
    {
        let (u, g, o, sb) = FsPermission::parse_short(n);
        self.useraction = u;
        self.groupaction = g;
        self.otheraction = o;
        self.sticky_bit = sb;
    }

    /// Encode the object to a short.
    pub fn to_short(&self) -> (r: i16)
        ensures
            r as int == self.mode(),
    {
        let s: i16 = if self.sticky_bit { 512 } else { 0 };
        let u = self.useraction.ordinal() as i16;
        let g = self.groupaction.ordinal() as i16;
        let o = self.otheraction.ordinal() as i16;
        s + u * 64 + g * 8 + o
    }

    /// Apply a umask to this permission and return a new one: the bits set
    /// in the umask are removed, and the sticky bit is cleared.
    pub fn apply_umask(&self, umask: &FsPermission) -> (r: FsPermission)
        ensures
            r == self.masked_by(*umask),
    {
        let u = self.useraction.and(&umask.useraction.not());
        let g = self.groupaction.and(&umask.groupaction.not());
        let o = self.otheraction.and(&umask.otheraction.not());
        proof {
            u.lemma_ord_round_trip();
            g.lemma_ord_round_trip();
            o.lemma_ord_round_trip();
        }
        FsPermission { useraction: u, groupaction: g, otheraction: o, sticky_bit: false }
    }

    /// The umask every client gets for now.
    pub open spec fn spec_get_umask() -> FsPermission {
        permission_of(0o22u16)
    }

    /// Get the user file creation mask (umask). The configured value, when
    /// there is one, is read by [`UmaskParser`].
    pub fn get_umask(conf: Option<&Configuration>) -> (r: FsPermission)
        ensures
            r == FsPermission::spec_get_umask(),
    {
        let mut umask: i16 = FS_PERMISSIONS_UMASK_DEFAULT as i16;
        if let Some(conf) = conf {
            if let Some(conf_umask) = conf.get(FS_PERMISSIONS_UMASK_KEY, None) {
                umask = UmaskParser::new(conf_umask.as_str()).get_umask();
            }
        }
        FsPermission::from_short(umask)
    }

    /// Get the default permission for directory.
    pub fn get_dir_default() -> (r: FsPermission)
        ensures
            r == permission_of(0o777u16),
    {
        FsPermission::from_short(0o777)
    }

    /// Get the default permission for file.
    pub fn get_file_default() -> (r: FsPermission)
        ensures
            r == permission_of(0o666u16),
    {
        FsPermission::from_short(0o666)
    }

    /// The wire form of this permission.
    pub fn to_proto(&self) -> (r: FsPermissionProto)
        ensures
            r.perm as int == self.mode(),
    {
        FsPermissionProto { perm: self.to_short() as u32 }
    }
}

/// Utilities for converting client side values to their wire messages.
pub struct PBHelperClient;

impl PBHelperClient {
    pub fn convert(p: &FsPermission) -> (r: FsPermissionProto)
        ensures
            r.perm as int == p.mode(),
    {
        p.to_proto()
    }
}

/// Both the masked and the unmasked create modes of a new file or directory.
#[derive(Clone, Copy, PartialEq, Eq, Debug, Structural)]
pub struct FsCreateModes {
    pub masked: FsPermission,
    pub unmasked: FsPermission,
}

impl FsCreateModes {
    /// Create from unmasked mode and umask.
    pub fn apply_umask(mode: &FsPermission, umask: &FsPermission) -> (r: FsCreateModes)
        ensures
            r.masked == mode.masked_by(*umask),
            r.unmasked == *mode,
    {
        FsCreateModes::create(&mode.apply_umask(umask), mode)
    }

    /// Create from masked and unmasked modes.
    pub fn create(masked: &FsPermission, unmasked: &FsPermission) -> (r: FsCreateModes)
        ensures
            r.masked == *masked,
            r.unmasked == *unmasked,
    {
        FsCreateModes { masked: *masked, unmasked: *unmasked }
    }

    pub fn get_masked(&self) -> (r: &FsPermission)
        ensures
            *r == self.masked,
    {
        &self.masked
    }

    pub fn get_unmasked(&self) -> (r: &FsPermission)
        ensures
            *r == self.unmasked,
    {
        &self.unmasked
    }
}

/// Reads a umask setting. Symbolic and octal forms are not interpreted
/// yet: every setting yields the default mask `022`.
pub struct UmaskParser {
    umask_mode: i16,
}

impl View for UmaskParser {
    type V = i16;

    closed spec fn view(&self) -> i16 {
        self.umask_mode
    }
}

impl UmaskParser {
    pub fn new(mode_str: &str) -> (r: UmaskParser)
        ensures
            r@ == 0o22,
    {
        UmaskParser { umask_mode: 0o22 }
    }

    pub fn get_umask(&self) -> (r: i16)
        ensures
            r == self@,
    {
        self.umask_mode
    }
}

} // verus!
