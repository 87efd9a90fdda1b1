//! The script that runs in the page at every load: it adds the stylesheet
//! and the title bar, wires the title bar buttons to the window, sends
//! external links to the system browser, keeps the unread badge current, and
//! asks the user before an update is installed.

use vstd::prelude::*;

verus! {

/// The script up to the place of the stylesheet.
pub const SCRIPT_HEAD: &'static str = "
                window.addEventListener('DOMContentLoaded', () => { 
                    const style = document.createElement('style');
                    style.innerHTML = `";

/// The script between the stylesheet and the title bar markup.
pub const SCRIPT_MIDDLE: &'static str = "`;
                    document.head.append(style);

                    document.body.insertAdjacentHTML('afterbegin', `";

/// The script after the title bar markup.
pub const SCRIPT_TAIL: &'static str = "`);

                    const initWindowControls = () => {
                        if (!window.__TAURI__) return;
                        const appWindow = window.__TAURI__.window.getCurrentWindow();
                        document.getElementById('titlebar-minimize').addEventListener('click', () => appWindow.minimize());
                        document.getElementById('titlebar-maximize').addEventListener('click', () => appWindow.toggleMaximize());
                        document.getElementById('titlebar-close').addEventListener('click', () => appWindow.close());

                        document.getElementById('titlebar-settings').addEventListener('click', () => {
                            const selectors = [
                                'div[role=\"navigation\"] div[role=\"button\"][aria-label=\"Ustawienia użytkownika\"]', // Polish
                                'div[role=\"navigation\"] div[role=\"button\"][aria-label=\"Account settings\"]', // English
                                'div[role=\"navigation\"] div[role=\"button\"][aria-label*=\"Profil\"]',
                                // Fallback: try to find the very last button in the hidden sidebar rail
                                'div[role=\"navigation\"] > div:last-child div[role=\"button\"]' 
                            ];
                            
                            for (const selector of selectors) {
                                const btn = document.querySelector(selector);
                                if (btn) {
                                    console.log('Messterial: Found settings button via selector:', selector);
                                    btn.click();
                                    return;
                                }
                            }
                            console.error(\"Messterial: Could not find settings button.\");
                        });
                    };

                    const turboMode = () => {
                        // Disable smooth scrolling for instant feel
                        const css = 'html, body { scroll-behavior: auto !important; } * { transition-delay: 0ms !important; }';
                        const s = document.createElement('style');
                        s.innerHTML = css;
                        document.head.appendChild(s);

                        // Block Analytics/Logging
                        const originalFetch = window.fetch;
                        window.fetch = async (...args) => {
                            const url = args[0] ? args[0].toString() : '';
                            if (url.includes('/logging') || url.includes('/falco') || url.includes('analytics')) {
                                return new Response();
                            }
                            return originalFetch(...args);
                        };
                    };
                    turboMode();

                    // External link handler
                    const setupExternalLinks = () => {
                        const openExternalUrl = async (href) => {
                            if (!window.__TAURI__) return false;
                            try {
                                // Tauri 2 plugin invoke pattern
                                await window.__TAURI__.core.invoke('plugin:opener|open_url', { url: href });
                                return true;
                            } catch (err) {
                                console.error('Messterial: Failed to open URL:', err);
                                return false;
                            }
                        };

                        document.addEventListener('click', async (e) => {
                            const link = e.target.closest('a[href]');
                            if (!link) return;
                            
                            const href = link.getAttribute('href');
                            if (!href) return;
                            
                            // Check if it's an external link (not messenger.com)
                            const isExternal = href.startsWith('http://') || href.startsWith('https://');
                            const isMessengerInternal = href.includes('messenger.com') || href.includes('facebook.com/messages') || href.includes('facebook.com/login');
                            
                            if (isExternal && !isMessengerInternal) {
                                e.preventDefault();
                                e.stopPropagation();
                                await openExternalUrl(href);
                            }
                        }, true);
                        
                        // Also handle middle-click
                        document.addEventListener('auxclick', async (e) => {
                            if (e.button !== 1) return; // Middle click only
                            
                            const link = e.target.closest('a[href]');
                            if (!link) return;
                            
                            const href = link.getAttribute('href');
                            if (!href) return;
                            
                            const isExternal = href.startsWith('http://') || href.startsWith('https://');
                            const isMessengerInternal = href.includes('messenger.com') || href.includes('facebook.com/messages') || href.includes('facebook.com/login');
                            
                            if (isExternal && !isMessengerInternal) {
                                e.preventDefault();
                                e.stopPropagation();
                                await openExternalUrl(href);
                            }
                        }, true);
                    };
                    setupExternalLinks();

                    // Badge notification
                    const setupBadgeNotifications = () => {
                        let lastBadgeCount = -1; // Start at -1 to force first update
                        console.log('Messterial: Badge notifications initialized');
                        
                        // Create a badge icon with number overlay
                        const createBadgeIcon = async (count) => {
                            const size = 16;
                            const canvas = document.createElement('canvas');
                            canvas.width = size;
                            canvas.height = size;
                            const ctx = canvas.getContext('2d');
                            
                            // Draw red circle
                            ctx.fillStyle = '#e53935';
                            ctx.beginPath();
                            ctx.arc(size/2, size/2, size/2, 0, Math.PI * 2);
                            ctx.fill();
                            
                            // Draw text
                            ctx.fillStyle = 'white';
                            ctx.font = 'bold 11px Arial';
                            ctx.textAlign = 'center';
                            ctx.textBaseline = 'middle';
                            const text = count > 9 ? '9+' : count.toString();
                            ctx.fillText(text, size/2, size/2 + 1);
                            
                            // Create Tauri Image
                            const imageData = ctx.getImageData(0, 0, size, size);
                            const rgba = new Uint8Array(imageData.data);
                            const Image = window.__TAURI__.image.Image;
                            return await Image.new(rgba, size, size);
                        };
                        
                        const countUnreadChats = () => {
                            // Count unread indicators in the chat list
                            const chatRows = document.querySelectorAll('div[role=\"navigation\"] div[role=\"row\"]');
                            let unreadCount = 0;
                            
                            chatRows.forEach((row, idx) => {
                                // Look for the unread indicator dot
                                const unreadIndicator = row.querySelector('div[aria-hidden=\"true\"][role=\"button\"][tabindex=\"-1\"]');
                                if (unreadIndicator) {
                                    unreadCount++;
                                }
                            });
                            
                            return unreadCount;
                        };
                        
                        const updateBadge = async () => {
                            if (!window.__TAURI__) return;
                            
                            const count = countUnreadChats();
                            
                            if (count !== lastBadgeCount) {
                                lastBadgeCount = count;
                                try {
                                    const appWindow = window.__TAURI__.window.getCurrentWindow();
                                    
                                    if (count > 0) {
                                        // Create overlay icon with the count
                                        const icon = await createBadgeIcon(count);
                                        await appWindow.setOverlayIcon(icon);
                                        console.log('Messterial: Badge set to', count);
                                    } else {
                                        // Clear overlay
                                        await appWindow.setOverlayIcon(null);
                                        console.log('Messterial: Badge cleared');
                                    }
                                } catch (err) {
                                    console.error('Messterial: Failed to update badge:', err);
                                }
                            }
                        };

                        // Observe the navigation/chat list for changes
                        const observeChatList = () => {
                            const nav = document.querySelector('div[role=\"navigation\"]');
                            if (nav) {
                                const observer = new MutationObserver(() => updateBadge());
                                observer.observe(nav, { childList: true, subtree: true, attributes: true });
                                console.log('Messterial: Observing chat list for unread changes');
                            }
                        };

                        // Poll periodically to catch all updates and initialize observer
                        setInterval(() => {
                            updateBadge();
                            // Try to set up observer if not already done
                            if (!document.querySelector('div[role=\"navigation\"].__messterial_observed')) {
                                const nav = document.querySelector('div[role=\"navigation\"]');
                                if (nav) {
                                    nav.classList.add('__messterial_observed');
                                    observeChatList();
                                }
                            }
                        }, 2000);
                        
                        // Initial check
                        setTimeout(updateBadge, 3000);
                    };
                    setupBadgeNotifications();

                    // Update consent prompt via events
                    const setupUpdateConsent = () => {
                        if (!window.__TAURI__ || !window.__TAURI__.event) return;
                        window.__TAURI__.event.listen('messterial:prompt-update', async (event) => {
                            try {
                                const payload = event && event.payload ? event.payload : {};
                                const current = payload.current || '';
                                const version = payload.version || '';
                                const message = `Version ${version} is available.\n\nCurrent version: ${current}\nNew version: ${version}\n\nInstall now?`;
                                const approved = window.confirm(message);
                                await window.__TAURI__.event.emit('messterial:update-decision', { approved });
                            } catch (err) {
                                console.error('Messterial: Update consent failed:', err);
                                try {
                                    await window.__TAURI__.event.emit('messterial:update-decision', { approved: false });
                                } catch {}
                            }
                        });
                    };
                    setupUpdateConsent();

                    let tauriInterval = setInterval(() => {
                        if (window.__TAURI__) {
                            clearInterval(tauriInterval);
                            initWindowControls();
                        }
                    }, 100);
                });
                ";

/// The page script for a stylesheet `css` and title bar markup `html`.
pub open spec fn init_script_of(css: Seq<char>, html: Seq<char>) -> Seq<char> {
    SCRIPT_HEAD@ + css + SCRIPT_MIDDLE@ + html + SCRIPT_TAIL@
}

/// Builds the page script around a stylesheet and title bar markup. Both are
/// placed inside JavaScript template literals as they are.
pub fn init_script(css: &str, html: &str) -> (r: String)
    ensures
        r@ == init_script_of(css@, html@),
{
    let mut r = String::from_str(SCRIPT_HEAD);
    r.append(css);
    r.append(SCRIPT_MIDDLE);
    r.append(html);
    r.append(SCRIPT_TAIL);
    r
}

} // verus!
