//! The node and game handle exposed to the mobile apps: node status,
//! discovery, game creation and joining, the event queue, and the craps
//! round that bets and dice rolls drive.

use vstd::prelude::*;
use crate::error::BitCrapsError;
use crate::mobile::platform_config::PlatformConfig;
use crate::mobile::power_management::{mode_factor, mode_interval, same_config, scan_parameters, PowerManager, PowerMode};
use crate::clock::current_timestamp;
use crate::text::{concat_str, new_uuid_string, parse_uuid, uuid_parse};

verus! {

/// Game configuration.
pub struct GameConfig {
    pub min_bet: u64,
    pub max_bet: u64,
    pub player_limit: usize,
    pub timeout_seconds: u32,
    pub allow_spectators: bool,
}

/// Checks a game configuration before the game is announced: the bet range
/// must not be inverted, at least two players must fit, and the timeout
/// must be positive, checked in that order.
pub fn validate_game_config(config: &GameConfig) -> (r: Result<(), BitCrapsError>)
    ensures
        config.min_bet > config.max_bet ==> (r matches Err(BitCrapsError::InvalidInput { reason })
            && reason@ == "Invalid bet range: min_bet > max_bet"@),
        config.min_bet <= config.max_bet && config.player_limit < 2 ==> (r matches Err(BitCrapsError::GameError { reason })
            && reason@ == "Invalid player limit: must be at least 2"@),
        config.min_bet <= config.max_bet && config.player_limit >= 2 && config.timeout_seconds == 0
            ==> (r matches Err(BitCrapsError::GameError { reason }) && reason@ == "Invalid timeout: must be greater than 0"@),
        r is Ok <==> (config.min_bet <= config.max_bet && config.player_limit >= 2 && config.timeout_seconds > 0),
{
    if config.min_bet > config.max_bet {
        return Err(BitCrapsError::InvalidInput { reason: "Invalid bet range: min_bet > max_bet".to_owned() });
    }
    if config.player_limit < 2 {
        return Err(BitCrapsError::GameError { reason: "Invalid player limit: must be at least 2".to_owned() });
    }
    if config.timeout_seconds == 0 {
        return Err(BitCrapsError::GameError { reason: "Invalid timeout: must be greater than 0".to_owned() });
    }
    Ok(())
}

/// State of a craps round.
#[derive(Debug, Clone, Copy, PartialEq, Eq, Structural)]
pub enum GameState {
    Waiting,
    ComeOut,
    Point { point: u8 },
    Resolved,
}

/// State after a roll totalling `total`: on the come-out roll 7, 11, 2, 3
/// and 12 resolve the round and any other total becomes the point; with a
/// point set, the point or a 7 resolves it; other states stay.
pub open spec fn state_after_roll(state: GameState, total: int) -> GameState {
    match state {
        GameState::ComeOut => {
            if total == 7 || total == 11 || total == 2 || total == 3 || total == 12 {
                GameState::Resolved
            } else {
                GameState::Point { point: total as u8 }
            }
        },
        GameState::Point { point } => {
            if total == point || total == 7 {
                GameState::Resolved
            } else {
                state
            }
        },
        _ => state,
    }
}

/// The state after rolling `die1` and `die2`.
pub fn next_game_state(state: GameState, die1: u8, die2: u8) -> (s: GameState)
    requires
        1 <= die1 <= 6,
        1 <= die2 <= 6,
    ensures
        s == state_after_roll(state, die1 + die2),
{
    let total = die1 + die2;
    match state {
        GameState::ComeOut => {
            if total == 7 || total == 11 || total == 2 || total == 3 || total == 12 {
                GameState::Resolved
            } else {
                GameState::Point { point: total }
            }
        },
        GameState::Point { point } => {
            if total == point || total == 7 {
                GameState::Resolved
            } else {
                state
            }
        },
        _ => state,
    }
}

/// A resolved round stays resolved, a round that has not started stays
/// waiting, and a point, once set, is 4, 5, 6, 8, 9 or 10 and stays until
/// the round resolves.
pub proof fn lemma_round_progress(state: GameState, total: int)
    requires
        2 <= total <= 12,
    ensures
        state == GameState::Resolved ==> state_after_roll(state, total) == GameState::Resolved,
        state == GameState::Waiting ==> state_after_roll(state, total) == GameState::Waiting,
        state == GameState::ComeOut ==> (state_after_roll(state, total) matches GameState::Point { point }
            ==> (point == 4 || point == 5 || point == 6 || point == 8 || point == 9 || point == 10)),
        state matches GameState::Point { point } ==> (state_after_roll(state, total) == GameState::Resolved
            || state_after_roll(state, total) == state),
{
}

/// The rules of a craps round, for every total two dice can show. On the
/// come-out roll a natural (7, 11) or craps (2, 3, 12) resolves the round
/// and any other total becomes the point. With a point set, the round
/// resolves exactly when the total is the point or 7; any other total
/// leaves the state as it was.
pub proof fn lemma_craps_rules(point: u8, total: int)
    requires
        2 <= total <= 12,
    ensures
        (state_after_roll(GameState::ComeOut, total) == GameState::Resolved) <==> (total == 7 || total == 11 || total == 2
            || total == 3 || total == 12),
        state_after_roll(GameState::ComeOut, total) != GameState::Resolved ==> state_after_roll(GameState::ComeOut, total)
            == (GameState::Point { point: total as u8 }),
        (state_after_roll(GameState::Point { point }, total) == GameState::Resolved) <==> (total == point || total == 7),
        !(total == point || total == 7) ==> state_after_roll(GameState::Point { point }, total) == (GameState::Point { point }),
{
}

/// Kinds of craps bets.
#[derive(Debug, Clone, Copy, PartialEq, Eq, Structural)]
pub enum BetType {
    Pass,
    DontPass,
    Field,
    Any7,
    AnyCraps,
    Hardway { number: u8 },
    PlaceBet { number: u8 },
}

/// A dice roll.
#[derive(Debug)]
pub struct DiceRoll {
    pub die1: u8,
    pub die2: u8,
    pub roll_time: u64,
    pub roller_peer_id: String,
}

impl Clone for DiceRoll {
    fn clone(&self) -> (r: Self)
        ensures
            r == *self,
    {
        DiceRoll {
            die1: self.die1,
            die2: self.die2,
            roll_time: self.roll_time,
            roller_peer_id: self.roller_peer_id.clone(),
        }
    }
}

/// Connectivity of the node as shown to the app.
#[derive(Debug, Clone, Copy, PartialEq, Eq, Structural)]
pub enum NetworkState {
    Offline,
    Scanning,
    Connected,
}

/// Events the node reports to the app.
#[derive(Debug)]
pub enum GameEvent {
    NetworkStateChanged { new_state: NetworkState },
    GameCreated { game_id: String },
    GameJoined { game_id: String, peer_id: String },
    GameLeft { game_id: String, peer_id: String },
    BetPlaced { peer_id: String, bet_type: BetType, amount: u64 },
    DiceRolled { roll: DiceRoll },
}

impl Clone for GameEvent {
    fn clone(&self) -> (r: Self)
        ensures
            r == *self,
    {
        match self {
            GameEvent::NetworkStateChanged { new_state } => GameEvent::NetworkStateChanged { new_state: *new_state },
            GameEvent::GameCreated { game_id } => GameEvent::GameCreated { game_id: game_id.clone() },
            GameEvent::GameJoined { game_id, peer_id } => GameEvent::GameJoined {
                game_id: game_id.clone(),
                peer_id: peer_id.clone(),
            },
            GameEvent::GameLeft { game_id, peer_id } => GameEvent::GameLeft {
                game_id: game_id.clone(),
                peer_id: peer_id.clone(),
            },
            GameEvent::BetPlaced { peer_id, bet_type, amount } => GameEvent::BetPlaced {
                peer_id: peer_id.clone(),
                bet_type: *bet_type,
                amount: *amount,
            },
            GameEvent::DiceRolled { roll } => GameEvent::DiceRolled { roll: roll.clone() },
        }
    }
}

/// Lifecycle state of the node.
#[derive(Debug, Clone, Copy, PartialEq, Eq, Structural)]
pub enum NodeState {
    Initializing,
    Ready,
    Discovering,
    InGame,
}

/// Status of the node.
#[derive(Debug)]
pub struct NodeStatus {
    pub state: NodeState,
    pub bluetooth_enabled: bool,
    pub discovery_active: bool,
    pub current_game_id: Option<String>,
    pub active_connections: u32,
    pub current_power_mode: PowerMode,
}

impl Clone for NodeStatus {
    fn clone(&self) -> (r: Self)
        ensures
            r == *self,
    {
        NodeStatus {
            state: self.state,
            bluetooth_enabled: self.bluetooth_enabled,
            discovery_active: self.discovery_active,
            current_game_id: match &self.current_game_id {
                Some(g) => Some(g.clone()),
                None => None,
            },
            active_connections: self.active_connections,
            current_power_mode: self.current_power_mode,
        }
    }
}

/// A peer as shown to the app.
#[derive(Debug)]
pub struct PeerInfo {
    pub peer_id: String,
    pub display_name: Option<String>,
    pub signal_strength: u32,
    pub last_seen: u64,
    pub is_connected: bool,
}

/// Lower-case hexadecimal digit of a value below sixteen.
pub open spec fn hex_digit(d: int) -> char {
    if d < 10 { (('0' as int) + d) as char } else { (('a' as int) + d - 10) as char }
}

/// Lower-case hexadecimal text of a byte string, two digits per byte.
pub open spec fn hex_text(b: Seq<u8>) -> Seq<char>
    decreases b.len(),
{
    if b.len() == 0 {
        seq![]
    } else {
        hex_text(b.drop_last()) + seq![hex_digit(b.last() as int / 16), hex_digit(b.last() as int % 16)]
    }
}

/// `hex::encode`: two lower-case hexadecimal digits per byte.
#[verifier::external_body]
pub(crate) fn hex_encode(bytes: &[u8]) -> (s: String)
    ensures
        s@ == hex_text(bytes@),
{
    hex::encode(bytes)
}

/// A die value drawn uniformly from the operating system's random source.
#[verifier::external_body]
fn random_die() -> (d: u8)
    ensures
        1 <= d <= 6,
{
    rand::Rng::gen_range(&mut rand::rngs::OsRng, 1u8..=6u8)
}

/// Signal strength shown for a peer: 100 under 100 ms of latency, 75 under
/// 300 ms, 50 otherwise or when the latency is unknown.
pub open spec fn signal_strength_of(latency_ms: Option<u64>) -> u32 {
    match latency_ms {
        Some(l) => if l < 100 { 100 } else if l < 300 { 75 } else { 50 },
        None => 50,
    }
}

/// The peer entry shown for a connected mesh peer.
pub fn peer_info(peer_id: &[u8], latency_ms: Option<u64>, now: u64) -> (p: PeerInfo)
    requires
        peer_id@.len() >= 4,
    ensures
        p.peer_id@ == hex_text(peer_id@),
        p.display_name matches Some(n) && n@ == "Player_"@ + hex_text(peer_id@.subrange(0, 4)),
        p.signal_strength == signal_strength_of(latency_ms),
        p.last_seen == now,
        p.is_connected,
{
    let signal_strength: u32 = match latency_ms {
        Some(l) => if l < 100 { 100 } else if l < 300 { 75 } else { 50 },
        None => 50,
    };
    let prefix = hex_encode(vstd::slice::slice_subrange(peer_id, 0, 4));
    PeerInfo {
        peer_id: hex_encode(peer_id),
        display_name: Some(concat_str("Player_", prefix.as_str())),
        signal_strength,
        last_seen: now,
        is_connected: true,
    }
}

/// The node: its status, power management, platform configuration, the
/// events not yet collected by the app and the local peer id.
pub struct BitCrapsNode {
    pub status: NodeStatus,
    pub power_manager: PowerManager,
    pub platform_config: Option<PlatformConfig>,
    pub event_queue: Vec<GameEvent>,
    pub peer_id: Vec<u8>,
}

/// A game the node created or joined.
pub struct GameHandle {
    pub game_id: String,
    pub state: GameState,
    pub history: Vec<GameEvent>,
    pub last_roll: Option<DiceRoll>,
}

impl BitCrapsNode {
    /// A ready node with the given peer id, power mode and platform configuration.
    pub fn new(peer_id: Vec<u8>, power_mode: PowerMode, platform_config: Option<PlatformConfig>) -> (n: Self)
        ensures
            n.status.state == NodeState::Ready,
            !n.status.bluetooth_enabled,
            !n.status.discovery_active,
            n.status.current_game_id is None,
            n.status.active_connections == 0,
            n.status.current_power_mode == power_mode,
            n.power_manager.current_mode == power_mode,
            n.power_manager.scan_interval == 1000,
            n.power_manager.platform_config is None,
            n.platform_config == platform_config,
            n.event_queue@.len() == 0,
            n.peer_id == peer_id,
    {
        BitCrapsNode {
            status: NodeStatus {
                state: NodeState::Ready,
                bluetooth_enabled: false,
                discovery_active: false,
                current_game_id: None,
                active_connections: 0,
                current_power_mode: power_mode,
            },
            power_manager: PowerManager::new(power_mode),
            platform_config,
            event_queue: Vec::new(),
            peer_id,
        }
    }

    /// Starts Bluetooth discovery: the node is discovering, scanning is set
    /// up for the current power mode, and a scanning event is queued.
    pub fn start_discovery(&mut self) -> (r: Result<(), BitCrapsError>)
        requires
            old(self).platform_config matches Some(c) ==> c.scan_interval_ms * mode_factor(
                old(self).power_manager.current_mode,
            ) <= u32::MAX,
        ensures
            r is Ok,
            final(self).status.discovery_active,
            final(self).status.bluetooth_enabled,
            final(self).status.state == NodeState::Discovering,
            final(self).status.current_game_id == old(self).status.current_game_id,
            final(self).status.current_power_mode == old(self).status.current_power_mode,
            final(self).power_manager.current_mode == old(self).power_manager.current_mode,
            final(self).power_manager.scan_interval == match old(self).platform_config {
                Some(c) => scan_parameters(old(self).power_manager.current_mode, c.scan_window_ms, c.scan_interval_ms).1,
                None => old(self).power_manager.scan_interval,
            },
            final(self).event_queue@ == old(self).event_queue@.push(
                GameEvent::NetworkStateChanged { new_state: NetworkState::Scanning },
            ),
            final(self).peer_id == old(self).peer_id,
            final(self).platform_config == old(self).platform_config,
    {
        self.status.discovery_active = true;
        self.status.state = NodeState::Discovering;
        self.status.bluetooth_enabled = true;
        self.power_manager.configure_discovery(&self.platform_config)?;
        self.event_queue.push(GameEvent::NetworkStateChanged { new_state: NetworkState::Scanning });
        Ok(())
    }

    /// Stops Bluetooth discovery: the node is ready again and an offline
    /// event is queued.
    pub fn stop_discovery(&mut self) -> (r: Result<(), BitCrapsError>)
        ensures
            r is Ok,
            !final(self).status.discovery_active,
            final(self).status.state == NodeState::Ready,
            final(self).status.bluetooth_enabled == old(self).status.bluetooth_enabled,
            final(self).status.current_game_id == old(self).status.current_game_id,
            final(self).event_queue@ == old(self).event_queue@.push(
                GameEvent::NetworkStateChanged { new_state: NetworkState::Offline },
            ),
            final(self).peer_id == old(self).peer_id,
    {
        self.status.discovery_active = false;
        self.status.state = NodeState::Ready;
        self.event_queue.push(GameEvent::NetworkStateChanged { new_state: NetworkState::Offline });
        Ok(())
    }

    /// The hexadecimal ids of the connected peers the mesh reports; their
    /// number becomes the count of active connections.
    pub fn get_discovered_peers(&mut self, peers: &Vec<Vec<u8>>) -> (r: Result<Vec<String>, BitCrapsError>)
        ensures
            r matches Ok(ids) && ids@.len() == peers@.len()
                && forall|i: int| 0 <= i < peers@.len() ==> (#[trigger] ids@[i])@ == hex_text(peers@[i]@),
            peers@.len() <= u32::MAX ==> final(self).status.active_connections == peers@.len(),
            final(self).status.state == old(self).status.state,
            final(self).status.current_game_id == old(self).status.current_game_id,
            final(self).event_queue == old(self).event_queue,
    {
        let mut ids: Vec<String> = Vec::new();
        let mut i: usize = 0;
        while i < peers.len()
            invariant
                i <= peers.len(),
                ids@.len() == i,
                forall|j: int| 0 <= j < i ==> (#[trigger] ids@[j])@ == hex_text(peers@[j]@),
            decreases peers.len() - i,
        {
            ids.push(hex_encode(peers[i].as_slice()));
            i = i + 1;
        }
        if ids.len() <= 0xffff_ffff {
            self.status.active_connections = ids.len() as u32;
        } else {
            self.status.active_connections = 0xffff_ffff;
        }
        Ok(ids)
    }

    /// Opens a game handle for `game_id` and makes it the node's game.
    fn enter_game(&mut self, game_id: &String) -> (h: GameHandle)
        ensures
            h.game_id == *game_id,
            h.state == GameState::Waiting,
            h.history@.len() == 0,
            h.last_roll is None,
            final(self).status.current_game_id == Some(*game_id),
            final(self).status.state == NodeState::InGame,
            final(self).status.current_power_mode == old(self).status.current_power_mode,
            final(self).event_queue == old(self).event_queue,
            final(self).peer_id == old(self).peer_id,
    {
        self.status.current_game_id = Some(game_id.clone());
        self.status.state = NodeState::InGame;
        GameHandle { game_id: game_id.clone(), state: GameState::Waiting, history: Vec::new(), last_roll: None }
    }

    /// Creates a game: an invalid configuration is refused; otherwise a new
    /// game with a fresh UUID becomes the node's game and a creation event
    /// is queued. The mesh service that announced the game to peers is not
    /// part of this build.
    pub fn create_game(&mut self, config: GameConfig) -> (r: Result<GameHandle, BitCrapsError>)
        ensures
            r is Ok <==> (config.min_bet <= config.max_bet && config.player_limit >= 2 && config.timeout_seconds > 0),
            config.min_bet > config.max_bet ==> (r matches Err(BitCrapsError::InvalidInput { reason })
                && reason@ == "Invalid bet range: min_bet > max_bet"@),
            config.min_bet <= config.max_bet && config.player_limit < 2 ==> (r matches Err(BitCrapsError::GameError { reason })
                && reason@ == "Invalid player limit: must be at least 2"@),
            config.min_bet <= config.max_bet && config.player_limit >= 2 && config.timeout_seconds == 0
                ==> (r matches Err(BitCrapsError::GameError { reason }) && reason@ == "Invalid timeout: must be greater than 0"@),
            r is Err ==> *final(self) == *old(self),
            r matches Ok(h) ==> {
                &&& uuid_parse(h.game_id@) is Some
                &&& h.state == GameState::Waiting
                &&& h.history@.len() == 0
                &&& final(self).status.current_game_id == Some(h.game_id)
                &&& final(self).status.state == NodeState::InGame
                &&& final(self).event_queue@ == old(self).event_queue@.push(GameEvent::GameCreated { game_id: h.game_id })
            },
    {
        match validate_game_config(&config) {
            Ok(()) => {},
            Err(e) => return Err(e),
        }
        let game_id = new_uuid_string();
        let handle = self.enter_game(&game_id);
        self.event_queue.push(GameEvent::GameCreated { game_id });
        Ok(handle)
    }

    /// Joins the game with id `game_id`; an id that is not a UUID is refused.
    pub fn join_game(&mut self, game_id: String) -> (r: Result<GameHandle, BitCrapsError>)
        ensures
            r is Ok <==> uuid_parse(game_id@) is Some,
            r matches Err(e) ==> (e matches BitCrapsError::InvalidInput { reason } && reason@ == "Invalid game ID format"@)
                && *final(self) == *old(self),
            r matches Ok(h) ==> {
                &&& h.game_id == game_id
                &&& h.state == GameState::Waiting
                &&& final(self).status.current_game_id == Some(game_id)
                &&& final(self).status.state == NodeState::InGame
                &&& final(self).event_queue@.len() == old(self).event_queue@.len() + 1
                &&& final(self).event_queue@.last() matches GameEvent::GameJoined { game_id: g, peer_id: p }
                    && g == game_id && p@ == "local_peer"@
            },
    {
        match parse_uuid(game_id.as_str()) {
            Some(_) => {},
            None => return Err(BitCrapsError::InvalidInput { reason: "Invalid game ID format".to_owned() }),
        }
        let handle = self.enter_game(&game_id);
        let peer = match self.get_peer_id() {
            Some(p) => p,
            None => "self".to_owned(),
        };
        self.event_queue.push(GameEvent::GameJoined { game_id, peer_id: peer });
        Ok(handle)
    }

    /// Leaves the current game; when there was one, a leave event naming the
    /// game and this peer is queued.
    pub fn leave_game(&mut self) -> (r: Result<(), BitCrapsError>)
        ensures
            r is Ok,
            final(self).status.current_game_id is None,
            final(self).status.state == NodeState::Ready,
            final(self).peer_id == old(self).peer_id,
            old(self).status.current_game_id is None ==> final(self).event_queue == old(self).event_queue,
            old(self).status.current_game_id matches Some(g) ==> final(self).event_queue@ == old(self).event_queue@.push(
                GameEvent::GameLeft { game_id: g, peer_id: final(self).event_queue@.last()->GameLeft_peer_id },
            ) && final(self).event_queue@.last()->GameLeft_peer_id@ == hex_text(old(self).peer_id@),
    {
        let game_id = self.status.current_game_id.take();
        self.status.state = NodeState::Ready;
        match game_id {
            Some(g) => {
                let peer = hex_encode(self.peer_id.as_slice());
                self.event_queue.push(GameEvent::GameLeft { game_id: g, peer_id: peer });
            },
            None => {},
        }
        Ok(())
    }

    /// Takes the oldest pending event, if any.
    pub fn poll_event(&mut self) -> (e: Option<GameEvent>)
        ensures
            old(self).event_queue@.len() == 0 ==> e is None && final(self).event_queue == old(self).event_queue,
            old(self).event_queue@.len() > 0 ==> e == Some(old(self).event_queue@[0])
                && final(self).event_queue@ == old(self).event_queue@.drop_first(),
            final(self).status == old(self).status,
    {
        if self.event_queue.len() == 0 {
            None
        } else {
            Some(self.event_queue.remove(0))
        }
    }

    /// Takes all pending events, oldest first.
    pub fn drain_events(&mut self) -> (events: Vec<GameEvent>)
        ensures
            events@ == old(self).event_queue@,
            final(self).event_queue@.len() == 0,
            final(self).status == old(self).status,
    {
        let mut events = Vec::new();
        std::mem::swap(&mut events, &mut self.event_queue);
        events
    }

    /// The current node status.
    pub fn get_status(&self) -> (s: NodeStatus)
        ensures
            s == self.status,
    {
        self.status.clone()
    }

    /// Sets the power mode of the node and of its power manager.
    pub fn set_power_mode(&mut self, mode: PowerMode) -> (r: Result<(), BitCrapsError>)
        ensures
            r is Ok,
            final(self).status.current_power_mode == mode,
            final(self).power_manager.current_mode == mode,
            final(self).power_manager.scan_interval == mode_interval(mode),
            final(self).status == (NodeStatus { current_power_mode: mode, ..old(self).status }),
            final(self).event_queue == old(self).event_queue,
            final(self).power_manager.platform_config == old(self).power_manager.platform_config,
            final(self).peer_id == old(self).peer_id,
    {
        self.power_manager.set_mode(mode)?;
        self.status.current_power_mode = mode;
        Ok(())
    }

    /// Sets the Bluetooth scan interval; intervals under 100 ms are refused.
    pub fn set_scan_interval(&mut self, milliseconds: u32) -> (r: Result<(), BitCrapsError>)
        ensures
            milliseconds < 100 ==> (r matches Err(BitCrapsError::InvalidInput { .. })) && *final(self) == *old(self),
            milliseconds >= 100 ==> r is Ok && final(self).power_manager.scan_interval == milliseconds
                && final(self).status == old(self).status,
    {
        self.power_manager.set_scan_interval(milliseconds)
    }

    /// Configures the power manager for a platform.
    pub fn configure_for_platform(&mut self, config: PlatformConfig) -> (r: Result<(), BitCrapsError>)
        ensures
            r is Ok,
            final(self).power_manager.platform_config matches Some(pc) && same_config(pc, config),
            final(self).status == old(self).status,
    {
        self.power_manager.configure_for_platform(&config)
    }

    /// The peer id of this node as shown to other players.
    pub fn get_peer_id(&self) -> (r: Option<String>)
        ensures
            r matches Some(p) && p@ == "local_peer"@,
    {
        Some("local_peer".to_owned())
    }
}

impl GameHandle {
    /// The game id.
    pub fn get_game_id(&self) -> (r: String)
        ensures
            r == self.game_id,
    {
        self.game_id.clone()
    }

    /// The current game state.
    pub fn get_state(&self) -> (r: GameState)
        ensures
            r == self.state,
    {
        self.state
    }

    /// The events of this game so far, oldest first.
    pub fn get_game_history(&self) -> (r: Vec<GameEvent>)
        ensures
            r@ == self.history@,
    {
        let r = self.history.clone();
        assert(r@ =~= self.history@);
        r
    }

    /// The last dice roll, if any.
    pub fn get_last_roll(&self) -> (r: Option<DiceRoll>)
        ensures
            r == self.last_roll,
    {
        match &self.last_roll {
            Some(roll) => Some(roll.clone()),
            None => None,
        }
    }

    /// The id of the node's current game, checked to be a UUID.
    fn active_game(node: &BitCrapsNode, missing: &str) -> (r: Result<(), BitCrapsError>)
        ensures
            node.status.current_game_id is None ==> (r matches Err(BitCrapsError::GameLogic { reason })
                && reason@ == missing@),
            node.status.current_game_id matches Some(g) ==> (
                (uuid_parse(g@) is Some ==> r is Ok)
                && (uuid_parse(g@) is None ==> (r matches Err(BitCrapsError::InvalidInput { reason })
                    && reason@ == "Invalid game ID format"@))),
    {
        match &node.status.current_game_id {
            None => Err(BitCrapsError::GameLogic { reason: missing.to_owned() }),
            Some(g) => match parse_uuid(g.as_str()) {
                Some(_) => Ok(()),
                None => Err(BitCrapsError::InvalidInput { reason: "Invalid game ID format".to_owned() }),
            },
        }
    }

    /// Places a bet: a zero amount is refused, as is a bet without an active
    /// game or with a current game id that is not a UUID; otherwise the bet
    /// is queued as an event on the node and recorded in the history.
    pub fn place_bet(&mut self, node: &mut BitCrapsNode, bet_type: BetType, amount: u64) -> (r: Result<(), BitCrapsError>)
        ensures
            amount == 0 ==> (r matches Err(BitCrapsError::InvalidInput { reason })
                && reason@ == "Bet amount must be greater than zero"@),
            amount > 0 && old(node).status.current_game_id is None ==> (r matches Err(BitCrapsError::GameLogic { reason })
                && reason@ == "No active game to place bet in"@),
            r is Ok <==> (amount > 0 && (old(node).status.current_game_id matches Some(g) && uuid_parse(g@) is Some)),
            r is Err ==> *final(self) == *old(self) && *final(node) == *old(node),
            r is Ok ==> {
                &&& final(self).history@ == old(self).history@.push(final(self).history@.last())
                &&& final(self).history@.last() matches GameEvent::BetPlaced { peer_id, bet_type: b, amount: a }
                    && peer_id@ == "local_peer"@ && b == bet_type && a == amount
                &&& final(node).event_queue@ == old(node).event_queue@.push(final(self).history@.last())
                &&& final(self).state == old(self).state
                &&& final(node).status == old(node).status
            },
    {
        if amount == 0 {
            return Err(BitCrapsError::InvalidInput { reason: "Bet amount must be greater than zero".to_owned() });
        }
        Self::active_game(node, "No active game to place bet in")?;
        let peer = match node.get_peer_id() {
            Some(p) => p,
            None => "self".to_owned(),
        };
        let event = GameEvent::BetPlaced { peer_id: peer, bet_type, amount };
        node.event_queue.push(event.clone());
        self.history.push(event);
        Ok(())
    }

    /// Records a roll of `die1` and `die2` at time `now`: the round moves on
    /// as the dice say, and the roll is queued on the node and recorded.
    pub fn apply_roll(&mut self, node: &mut BitCrapsNode, die1: u8, die2: u8, now: u64) -> (r: Result<(), BitCrapsError>)
        requires
            1 <= die1 <= 6,
            1 <= die2 <= 6,
        ensures
            old(node).status.current_game_id is None ==> (r matches Err(BitCrapsError::GameLogic { reason })
                && reason@ == "No active game to roll dice in"@),
            r is Ok <==> (old(node).status.current_game_id matches Some(g) && uuid_parse(g@) is Some),
            r is Err ==> *final(self) == *old(self) && *final(node) == *old(node),
            r is Ok ==> {
                &&& final(self).state == state_after_roll(old(self).state, die1 + die2)
                &&& final(self).last_roll matches Some(roll) && roll.die1 == die1 && roll.die2 == die2
                    && roll.roll_time == now && roll.roller_peer_id@ == hex_text(old(node).peer_id@)
                &&& final(self).history@ == old(self).history@.push(GameEvent::DiceRolled { roll: final(self).last_roll->0 })
                &&& final(node).event_queue@ == old(node).event_queue@.push(final(self).history@.last())
                &&& final(node).status == old(node).status
            },
    {
        Self::active_game(node, "No active game to roll dice in")?;
        let roll = DiceRoll { die1, die2, roll_time: now, roller_peer_id: hex_encode(node.peer_id.as_slice()) };
        self.last_roll = Some(roll.clone());
        self.state = next_game_state(self.state, die1, die2);
        node.event_queue.push(GameEvent::DiceRolled { roll: roll.clone() });
        self.history.push(GameEvent::DiceRolled { roll });
        Ok(())
    }

    /// Rolls two dice from the operating system's random source and records
    /// the roll.
    pub fn roll_dice(&mut self, node: &mut BitCrapsNode) -> (r: Result<(), BitCrapsError>)
        ensures
            old(node).status.current_game_id is None ==> (r matches Err(BitCrapsError::GameLogic { reason })
                && reason@ == "No active game to roll dice in"@),
            r is Ok <==> (old(node).status.current_game_id matches Some(g) && uuid_parse(g@) is Some),
            r is Err ==> *final(self) == *old(self) && *final(node) == *old(node),
            r is Ok ==> (final(self).last_roll matches Some(roll) && final(self).state == state_after_roll(
                old(self).state,
                roll.die1 + roll.die2,
            ) && 1 <= roll.die1 <= 6 && 1 <= roll.die2 <= 6 && roll.roller_peer_id@ == hex_text(old(node).peer_id@)),
            r is Ok ==> {
                &&& final(self).history@ == old(self).history@.push(GameEvent::DiceRolled { roll: final(self).last_roll->0 })
                &&& final(node).event_queue@ == old(node).event_queue@.push(final(self).history@.last())
                &&& final(node).status == old(node).status
            },
    {
        let die1 = random_die();
        let die2 = random_die();
        self.apply_roll(node, die1, die2, current_timestamp())
    }
}

/// The events recorded by a run of calls, in call order: `Some(e)` is a call
/// that was accepted and recorded `e`, `None` one that was refused.
pub open spec fn accepted_events(steps: Seq<Option<GameEvent>>) -> Seq<GameEvent>
    decreases steps.len(),
{
    if steps.len() == 0 {
        Seq::empty()
    } else {
        let before = accepted_events(steps.drop_last());
        match steps.last() {
            Some(e) => before.push(e),
            None => before,
        }
    }
}

/// A game's history after a run of bets and rolls is the history it started
/// with followed by one event per accepted call, in call order; refused calls
/// leave no trace. `histories[i]` is the history before call `i` and
/// `histories[i + 1]` the one after it, as `place_bet` and `roll_dice` state
/// for an accepted (`Some`) and a refused (`None`) call.
pub proof fn lemma_history_records_accepted_calls(histories: Seq<Seq<GameEvent>>, steps: Seq<Option<GameEvent>>)
    requires
        histories.len() == steps.len() + 1,
        forall|i: int| 0 <= i < steps.len() ==> match #[trigger] steps[i] {
            Some(e) => histories[i + 1] == histories[i].push(e),
            None => histories[i + 1] == histories[i],
        },
    ensures
        histories.last() == histories[0] + accepted_events(steps),
        histories.last().len() == histories[0].len() + accepted_events(steps).len(),
    decreases steps.len(),
{
    if steps.len() == 0 {
        assert(histories[0] + accepted_events(steps) == histories[0]);
    } else {
        let n = steps.len() - 1;
        let hs = histories.drop_last();
        let ss = steps.drop_last();
        assert forall|i: int| 0 <= i < ss.len() implies match #[trigger] ss[i] {
            Some(e) => hs[i + 1] == hs[i].push(e),
            None => hs[i + 1] == hs[i],
        } by {
            assert(ss[i] == steps[i]);
        }
        lemma_history_records_accepted_calls(hs, ss);
        assert(hs.last() == histories[n]);
        assert(steps[n] == steps.last());
        match steps.last() {
            Some(e) => {
                assert(histories[0] + accepted_events(ss).push(e) == (histories[0] + accepted_events(ss)).push(e));
            },
            None => {},
        }
    }
}

} // verus!
